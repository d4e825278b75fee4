//! A node of the scene tree.
//!
//! A node owns its children and its components outright: a subtree dies with
//! the node that owns it, never the reverse.  A node is created detached; it
//! becomes attached when it is designated the root of a tree or added as a
//! child.  Attaching a child wires it to its parent and caches the parent's
//! world matrix on it; components can only be added to attached nodes.
//!
//! The traversals (`start`, `update`, `draw`) are pre-order and depth-first:
//! a disabled node cuts off its whole subtree, an enabled node dispatches to
//! its components in insertion order and then recurses into its children in
//! insertion order.

use vstd::prelude::*;

use crate::app_state::FrameState;
use crate::component::Component;
use crate::component::ComponentLogic;
use crate::float_ops::glm_mat4_inverse;
use crate::float_ops::glm_mat4_mul_vec4;
use crate::float_ops::glm_quat_rotate_vec3;
use crate::float_ops::spec_mat4_inverse;
use crate::float_ops::spec_mat4_mul;
use crate::float_ops::spec_mat4_mul_vec4;
use crate::float_ops::spec_quat_rotate_vec3;
use crate::float_ops::spec_quat_to_mat4;
use crate::math::Mat4;
use crate::math::Quat;
use crate::math::Vec3;
use crate::math::ONE_BITS;
use crate::math::ZERO_BITS;
use crate::matrix_utils::spec_get_rotation_with_scale;
use crate::matrix_utils::spec_get_scale;
use crate::matrix_utils::spec_get_translation;
use crate::matrix_utils::MatrixUtils;
use crate::renderer::DrawCmd;
use crate::transform::spec_local_model;
use crate::transform::spec_mat4_of;
use crate::transform::spec_quat_of;
use crate::transform::spec_transform_updated;
use crate::transform::spec_vec3_of;
use crate::transform::TransformData;

verus! {

/// The mathematical shape of a node: the same data with sequences in place
/// of vectors, usable in specifications.
#[verifier::ext_equal]
pub struct ObjectModel<L> {
    pub is_enabled: bool,
    pub transform_data: TransformData,
    pub components: Seq<Component<L>>,
    pub children: Seq<ObjectModel<L>>,
    pub attached: bool,
    pub has_parent: bool,
}

pub struct GameObject<L> {
    is_enabled: bool,
    transform_data: TransformData,
    components: Vec<Component<L>>,
    children: Vec<GameObject<L>>,
    attached: bool,
    has_parent: bool,
}

/// The models of a sequence of nodes, in order.
pub open spec fn spec_children_models<L>(cs: Seq<GameObject<L>>) -> Seq<ObjectModel<L>>
    decreases cs,
{
    if cs.len() == 0 {
        Seq::empty()
    } else {
        seq![cs[0].model()] + spec_children_models(cs.skip(1))
    }
}

impl<L> GameObject<L> {
    /// The node's children as nodes (the model holds their models).
    pub closed spec fn spec_children(self) -> Seq<GameObject<L>> {
        self.children@
    }

    /// The node's model: vectors become sequences, recursively.
    pub closed spec fn model(self) -> ObjectModel<L>
        decreases self,
    {
        ObjectModel {
            is_enabled: self.is_enabled,
            transform_data: self.transform_data,
            components: self.components@,
            children: spec_children_models(self.children@),
            attached: self.attached,
            has_parent: self.has_parent,
        }
    }
}

impl<L> View for GameObject<L> {
    type V = ObjectModel<L>;

    closed spec fn view(&self) -> ObjectModel<L> {
        self.model()
    }
}

/// A sequence of nodes and the sequence of their models have the same
/// length.
pub broadcast proof fn lemma_children_models_len<L>(cs: Seq<GameObject<L>>)
    ensures
        #[trigger] spec_children_models(cs).len() == cs.len(),
    decreases cs.len(),
{
    if cs.len() > 0 {
        lemma_children_models_len(cs.skip(1));
    }
}

/// The model sequence holds, at each index, the model of the node there.
pub broadcast proof fn lemma_children_models_index<L>(cs: Seq<GameObject<L>>, i: int)
    requires
        0 <= i < cs.len(),
    ensures
        #[trigger] spec_children_models(cs)[i] == cs[i].model(),
    decreases cs.len(),
{
    lemma_children_models_len(cs);
    if i > 0 {
        lemma_children_models_index(cs.skip(1), i - 1);
    }
}

/// Appending a node to a sequence appends its model.
pub broadcast proof fn lemma_children_models_push<L>(cs: Seq<GameObject<L>>, c: GameObject<L>)
    ensures
        #[trigger] spec_children_models(cs.push(c)) == spec_children_models(cs).push(c.model()),
{
    lemma_children_models_len(cs);
    lemma_children_models_len(cs.push(c));
    assert forall|i: int| 0 <= i < cs.len() + 1 implies spec_children_models(cs.push(c))[i]
        == spec_children_models(cs).push(c.model())[i] by {
        lemma_children_models_index(cs.push(c), i);
        if i < cs.len() {
            lemma_children_models_index(cs, i);
            assert(cs.push(c)[i] == cs[i]);
        } else {
            assert(cs.push(c)[i] == c);
        }
    }
    assert(spec_children_models(cs.push(c)) =~= spec_children_models(cs).push(c.model()));
}

/// `c` as it is attached under a parent whose world matrix is `pw`: the
/// parent and self references are set and the parent world matrix cached.
pub open spec fn spec_attach<L>(c: ObjectModel<L>, pw: Mat4) -> ObjectModel<L> {
    ObjectModel {
        has_parent: true,
        attached: true,
        transform_data: (TransformData { parent_world_matrix: pw, ..c.transform_data }),
        ..c
    }
}

/// One start pass over a node: a disabled node is untouched, subtree
/// included; an enabled node dispatches start to each component in order,
/// then to each child subtree in order.
pub open spec fn spec_obj_start<L: ComponentLogic>(
    o: ObjectModel<L>,
    state: FrameState,
) -> ObjectModel<L>
    decreases o,
{
    if !o.is_enabled {
        o
    } else {
        ObjectModel {
            components: o.components.map_values(|c: Component<L>| c.spec_comp_start(state)),
            children: spec_objs_start(o.children, state),
            ..o
        }
    }
}

/// The start pass applied to each node of a sequence, in order.
pub open spec fn spec_objs_start<L: ComponentLogic>(
    os: Seq<ObjectModel<L>>,
    state: FrameState,
) -> Seq<ObjectModel<L>>
    decreases os,
{
    if os.len() == 0 {
        Seq::empty()
    } else {
        seq![spec_obj_start(os[0], state)] + spec_objs_start(os.skip(1), state)
    }
}

/// One update pass over a node, gated and ordered like the start pass.
pub open spec fn spec_obj_update<L: ComponentLogic>(
    o: ObjectModel<L>,
    state: FrameState,
) -> ObjectModel<L>
    decreases o,
{
    if !o.is_enabled {
        o
    } else {
        ObjectModel {
            components: o.components.map_values(|c: Component<L>| c.spec_comp_update(state)),
            children: spec_objs_update(o.children, state),
            ..o
        }
    }
}

/// The update pass applied to each node of a sequence, in order.
pub open spec fn spec_objs_update<L: ComponentLogic>(
    os: Seq<ObjectModel<L>>,
    state: FrameState,
) -> Seq<ObjectModel<L>>
    decreases os,
{
    if os.len() == 0 {
        Seq::empty()
    } else {
        seq![spec_obj_update(os[0], state)] + spec_objs_update(os.skip(1), state)
    }
}

/// The commands drawn by a sequence of components, concatenated in order.
pub open spec fn spec_comps_draw<L: ComponentLogic>(cs: Seq<Component<L>>) -> Seq<DrawCmd>
    decreases cs.len(),
{
    if cs.len() == 0 {
        Seq::empty()
    } else {
        spec_comps_draw(cs.drop_last()) + cs.last().spec_comp_draw()
    }
}

/// The commands drawn by a node: none while disabled, else its components'
/// commands followed by its children's, each in insertion order.
pub open spec fn spec_obj_draw<L: ComponentLogic>(o: ObjectModel<L>) -> Seq<DrawCmd>
    decreases o,
{
    if !o.is_enabled {
        Seq::empty()
    } else {
        spec_comps_draw(o.components) + spec_objs_draw(o.children)
    }
}

/// The commands drawn by a sequence of nodes, concatenated in order.
pub open spec fn spec_objs_draw<L: ComponentLogic>(os: Seq<ObjectModel<L>>) -> Seq<DrawCmd>
    decreases os,
{
    if os.len() == 0 {
        Seq::empty()
    } else {
        spec_objs_draw(os.drop_last()) + spec_obj_draw(os.last())
    }
}

/// The start pass of a node sequence has one entry per node.
pub proof fn lemma_objs_start_len<L: ComponentLogic>(os: Seq<ObjectModel<L>>, state: FrameState)
    ensures
        spec_objs_start(os, state).len() == os.len(),
    decreases os.len(),
{
    if os.len() > 0 {
        lemma_objs_start_len(os.skip(1), state);
    }
}

/// The start pass of a node sequence applies the start pass at each index.
pub proof fn lemma_objs_start_index<L: ComponentLogic>(
    os: Seq<ObjectModel<L>>,
    state: FrameState,
    i: int,
)
    requires
        0 <= i < os.len(),
    ensures
        spec_objs_start(os, state)[i] == spec_obj_start(os[i], state),
    decreases os.len(),
{
    lemma_objs_start_len(os, state);
    if i > 0 {
        lemma_objs_start_index(os.skip(1), state, i - 1);
    }
}

/// The update pass of a node sequence has one entry per node.
pub proof fn lemma_objs_update_len<L: ComponentLogic>(os: Seq<ObjectModel<L>>, state: FrameState)
    ensures
        spec_objs_update(os, state).len() == os.len(),
    decreases os.len(),
{
    if os.len() > 0 {
        lemma_objs_update_len(os.skip(1), state);
    }
}

/// The update pass of a node sequence applies the update pass at each index.
pub proof fn lemma_objs_update_index<L: ComponentLogic>(
    os: Seq<ObjectModel<L>>,
    state: FrameState,
    i: int,
)
    requires
        0 <= i < os.len(),
    ensures
        spec_objs_update(os, state)[i] == spec_obj_update(os[i], state),
    decreases os.len(),
{
    lemma_objs_update_len(os, state);
    if i > 0 {
        lemma_objs_update_index(os.skip(1), state, i - 1);
    }
}

/// One matrix update over a node under the parent world matrix `pw`: the
/// transform is recomputed and the new world matrix propagated to every
/// child, whether or not the node is enabled.
pub open spec fn spec_obj_update_matrix<L>(o: ObjectModel<L>, pw: Seq<u32>) -> ObjectModel<L>
    decreases o,
{
    let td = spec_transform_updated(o.transform_data, pw);
    ObjectModel {
        transform_data: td,
        children: spec_objs_update_matrix(o.children, td.world_space_matrix@),
        ..o
    }
}

/// The matrix update applied to each node of a sequence, in order.
pub open spec fn spec_objs_update_matrix<L>(
    os: Seq<ObjectModel<L>>,
    pw: Seq<u32>,
) -> Seq<ObjectModel<L>>
    decreases os,
{
    if os.len() == 0 {
        Seq::empty()
    } else {
        seq![spec_obj_update_matrix(os[0], pw)] + spec_objs_update_matrix(os.skip(1), pw)
    }
}

/// The matrix update of a node sequence has one entry per node.
pub proof fn lemma_objs_update_matrix_len<L>(os: Seq<ObjectModel<L>>, pw: Seq<u32>)
    ensures
        spec_objs_update_matrix(os, pw).len() == os.len(),
    decreases os.len(),
{
    if os.len() > 0 {
        lemma_objs_update_matrix_len(os.skip(1), pw);
    }
}

/// The matrix update of a node sequence applies the update at each index.
pub proof fn lemma_objs_update_matrix_index<L>(os: Seq<ObjectModel<L>>, pw: Seq<u32>, i: int)
    requires
        0 <= i < os.len(),
    ensures
        spec_objs_update_matrix(os, pw)[i] == spec_obj_update_matrix(os[i], pw),
    decreases os.len(),
{
    lemma_objs_update_matrix_len(os, pw);
    if i > 0 {
        lemma_objs_update_matrix_index(os.skip(1), pw, i - 1);
    }
}

/// `o` with its local position replaced.
pub open spec fn spec_with_local_position<L>(o: ObjectModel<L>, p: Vec3) -> ObjectModel<L> {
    ObjectModel {
        transform_data: (TransformData { local_position: p, ..o.transform_data }),
        ..o
    }
}

/// `o` with its local rotation replaced.
pub open spec fn spec_with_local_rotation<L>(o: ObjectModel<L>, r: Quat) -> ObjectModel<L> {
    ObjectModel {
        transform_data: (TransformData { local_rotation: r, ..o.transform_data }),
        ..o
    }
}

/// `o` with its local scale replaced.
pub open spec fn spec_with_local_scale<L>(o: ObjectModel<L>, s: Vec3) -> ObjectModel<L> {
    ObjectModel {
        transform_data: (TransformData { local_scale: s, ..o.transform_data }),
        ..o
    }
}

/// The local position equivalent to the world position `position`: the
/// desired position taken through the inverse of the parent's world matrix
/// in homogeneous coordinates, or `position` itself at a parentless node.
pub open spec fn spec_global_to_local_position<L>(o: ObjectModel<L>, position: Vec3) -> Vec3 {
    if o.has_parent {
        spec_vec3_of(
            spec_mat4_mul_vec4(
                spec_mat4_inverse(o.transform_data.parent_world_matrix@),
                position@.push(ONE_BITS),
            ),
        )
    } else {
        position
    }
}

/// The local rotation equivalent to the world rotation `rotation`: the
/// rotation of the desired rotation's matrix taken through the inverse of
/// the parent's world matrix, or `rotation` itself at a parentless node.
pub open spec fn spec_global_to_local_rotation<L>(o: ObjectModel<L>, rotation: Quat) -> Quat {
    if o.has_parent {
        let rel = spec_mat4_mul(
            spec_mat4_inverse(o.transform_data.parent_world_matrix@),
            spec_quat_to_mat4(rotation@),
        );
        spec_quat_of(spec_get_rotation_with_scale(rel, spec_get_scale(rel)))
    } else {
        rotation
    }
}

/// The local components re-derived from the local model matrix: its
/// decomposition replaces the local position, rotation and scale.
pub open spec fn spec_with_locals_rederived<L>(o: ObjectModel<L>) -> ObjectModel<L> {
    let lm = spec_local_model(
        o.transform_data.local_position@,
        o.transform_data.local_rotation@,
        o.transform_data.local_scale@,
    );
    ObjectModel {
        transform_data: (TransformData {
            local_position: spec_vec3_of(spec_get_translation(lm)),
            local_rotation: spec_quat_of(
                spec_get_rotation_with_scale(lm, spec_get_scale(lm)),
            ),
            local_scale: spec_vec3_of(spec_get_scale(lm)),
            ..o.transform_data
        }),
        ..o
    }
}

/// Whether the subtree's transforms are consistent: at every node the world
/// matrix is the cached parent world matrix times the local model matrix,
/// the global components are the world matrix's decomposition, and every
/// child's cached parent world matrix is the node's world matrix.
pub open spec fn spec_subtree_consistent<L>(o: ObjectModel<L>) -> bool
    decreases o,
{
    let w = spec_mat4_mul(
        o.transform_data.parent_world_matrix@,
        spec_local_model(
            o.transform_data.local_position@,
            o.transform_data.local_rotation@,
            o.transform_data.local_scale@,
        ),
    );
    &&& o.transform_data.world_space_matrix == spec_mat4_of(w)
    &&& o.transform_data.global_position == spec_vec3_of(spec_get_translation(w))
    &&& o.transform_data.global_rotation == spec_quat_of(
        spec_get_rotation_with_scale(w, spec_get_scale(w)),
    )
    &&& o.transform_data.global_scale == spec_vec3_of(spec_get_scale(w))
    &&& forall|i: int|
        0 <= i < o.children.len() ==> (#[trigger] o.children[i]).transform_data.parent_world_matrix
            == o.transform_data.world_space_matrix && spec_subtree_consistent(o.children[i])
}

/// Composition law: a matrix update under any parent world matrix leaves the
/// whole subtree consistent — every node's world matrix is its parent's
/// world matrix times its own local model matrix, recursively for all
/// descendants, and the global components are the decomposition of the world
/// matrix.
pub proof fn lemma_update_matrix_composes<L>(o: ObjectModel<L>, pw: Seq<u32>)
    requires
        pw.len() == 16,
    ensures
        spec_subtree_consistent(spec_obj_update_matrix(o, pw)),
        spec_obj_update_matrix(o, pw).transform_data.parent_world_matrix == spec_mat4_of(pw),
    decreases o,
{
    let u = spec_obj_update_matrix(o, pw);
    let td = spec_transform_updated(o.transform_data, pw);
    assert(spec_mat4_of(pw)@ =~= pw);
    assert(spec_mat4_of(td.world_space_matrix@) =~= td.world_space_matrix);
    lemma_objs_update_matrix_len(o.children, td.world_space_matrix@);
    assert forall|i: int| 0 <= i < u.children.len() implies (#[trigger] u.children[i])
        .transform_data.parent_world_matrix == u.transform_data.world_space_matrix
        && spec_subtree_consistent(u.children[i]) by {
        lemma_objs_update_matrix_index(o.children, td.world_space_matrix@, i);
        lemma_update_matrix_composes(o.children[i], td.world_space_matrix@);
    }
}

/// Start-once law: once a start pass and an update pass have run over a
/// tree, a later start pass changes nothing — each component's start is
/// dispatched at most once, however many frames run.
pub proof fn lemma_obj_start_once<L: ComponentLogic>(
    o: ObjectModel<L>,
    s1: FrameState,
    s2: FrameState,
)
    ensures
        spec_obj_start(spec_obj_update(spec_obj_start(o, s1), s1), s2) == spec_obj_update(
            spec_obj_start(o, s1),
            s1,
        ),
    decreases o,
{
    if o.is_enabled {
        let o1 = spec_obj_start(o, s1);
        let o2 = spec_obj_update(o1, s1);
        assert forall|i: int| 0 <= i < o2.components.len() implies (#[trigger] o2.components[i])
            .spec_comp_start(s2) == o2.components[i] by {
            crate::component::lemma_comp_start_once(o.components[i], s1, s2);
        }
        assert(o2.components.map_values(|c: Component<L>| c.spec_comp_start(s2))
            =~= o2.components);
        lemma_objs_start_len(o.children, s1);
        lemma_objs_update_len(o1.children, s1);
        lemma_objs_start_len(o2.children, s2);
        assert forall|i: int| 0 <= i < o2.children.len() implies #[trigger] spec_objs_start(
            o2.children,
            s2,
        )[i] == o2.children[i] by {
            lemma_objs_start_index(o.children, s1, i);
            lemma_objs_update_index(o1.children, s1, i);
            lemma_objs_start_index(o2.children, s2, i);
            lemma_obj_start_once(o.children[i], s1, s2);
        }
        assert(spec_objs_start(o2.children, s2) =~= o2.children);
        assert(spec_obj_start(o2, s2) =~~= o2);
    }
}

/// Whether every start pass over `o` is a no-op: each of its reachable
/// components has already started or is disabled.
pub open spec fn spec_start_settled<L: ComponentLogic>(o: ObjectModel<L>) -> bool {
    forall|s: FrameState| #[trigger] spec_obj_start(o, s) == o
}

/// One full frame settles a tree: after a start pass and an update pass,
/// every later start pass is a no-op.
pub proof fn lemma_first_frame_settles<L: ComponentLogic>(o: ObjectModel<L>, s: FrameState)
    ensures
        spec_start_settled(spec_obj_update(spec_obj_start(o, s), s)),
{
    let u = spec_obj_update(spec_obj_start(o, s), s);
    assert forall|s2: FrameState| #[trigger] spec_obj_start(u, s2) == u by {
        lemma_obj_start_once(o, s, s2);
    }
}

/// A settled tree stays settled through any update pass, so start fires at
/// most once per component over any number of frames: the first full frame
/// settles the tree, and every later frame's start pass is a no-op.
pub proof fn lemma_settled_preserved_by_update<L: ComponentLogic>(o: ObjectModel<L>, s: FrameState)
    requires
        spec_start_settled(o),
    ensures
        spec_start_settled(spec_obj_update(o, s)),
    decreases o,
{
    if o.is_enabled {
        let u = spec_obj_update(o, s);
        lemma_objs_update_len(o.children, s);
        assert forall|s2: FrameState| #[trigger] spec_obj_start(u, s2) == u by {
            assert(spec_obj_start(o, s2) == o);
            assert forall|i: int| 0 <= i < u.components.len() implies (#[trigger] u.components[i])
                .spec_comp_start(s2) == u.components[i] by {
                let c = o.components[i];
                assert forall|s3: FrameState| #[trigger] c.spec_comp_start(s3) == c by {
                    assert(spec_obj_start(o, s3) == o);
                    assert(o.components.map_values(|x: Component<L>| x.spec_comp_start(s3))[i]
                        == o.components[i]);
                }
                crate::component::lemma_comp_settled_preserved(c, s);
            }
            assert(u.components.map_values(|c: Component<L>| c.spec_comp_start(s2))
                =~= u.components);
            assert forall|i: int| 0 <= i < u.children.len() implies #[trigger] spec_objs_start(
                u.children,
                s2,
            )[i] == u.children[i] by {
                let c = o.children[i];
                assert forall|s3: FrameState| #[trigger] spec_obj_start(c, s3) == c by {
                    assert(spec_obj_start(o, s3) == o);
                    lemma_objs_start_index(o.children, s3, i);
                }
                lemma_settled_preserved_by_update(c, s);
                lemma_objs_update_index(o.children, s, i);
                lemma_objs_start_index(u.children, s2, i);
            }
            lemma_objs_start_len(u.children, s2);
            assert(spec_objs_start(u.children, s2) =~= u.children);
            assert(spec_obj_start(u, s2) =~~= u);
        }
    }
}

/// Disabled-gating law: a disabled node is untouched by the start and
/// update passes and draws nothing — none of its components nor any
/// descendant is reached, however the descendants' own flags are set.
pub proof fn lemma_disabled_gating<L: ComponentLogic>(
    o: ObjectModel<L>,
    s1: FrameState,
    s2: FrameState,
)
    requires
        !o.is_enabled,
    ensures
        spec_obj_start(o, s1) == o,
        spec_obj_update(o, s2) == o,
        spec_obj_draw(o) == Seq::<DrawCmd>::empty(),
{
}

/// The model of a fresh, detached, enabled node.
pub open spec fn spec_new_object<L>() -> ObjectModel<L> {
    ObjectModel {
        is_enabled: true,
        transform_data: TransformData::spec_initial(),
        components: Seq::empty(),
        children: Seq::empty(),
        attached: false,
        has_parent: false,
    }
}

impl<L: ComponentLogic> GameObject<L> {
    /// A fresh node: enabled, detached, with no parent, children or
    /// components.
    pub fn new() -> (r: GameObject<L>)
        ensures
            r@ == spec_new_object::<L>(),
    {
        let r = GameObject {
            components: Vec::new(),
            transform_data: TransformData::new(),
            is_enabled: true,
            attached: false,
            has_parent: false,
            children: Vec::new(),
        };
        proof {
            assert(r@ =~~= spec_new_object::<L>());
        }
        r
    }

    /// Designates this node as the root of a tree: it becomes its own
    /// self-reference.  Required once per tree, before children or
    /// components are attached.
    pub fn set_as_root_node(&mut self)
        ensures
            final(self)@ == (ObjectModel { attached: true, ..old(self)@ }),
    {
        self.attached = true;
        proof {
            assert(self@ =~~= (ObjectModel { attached: true, ..old(self)@ }));
        }
    }

    /// Whether the node has a parent.
    pub fn has_parent(&self) -> (r: bool)
        ensures
            r == self@.has_parent,
    {
        self.has_parent
    }

    /// Enables or disables the node; a disabled node cuts its whole subtree
    /// off from every traversal.
    pub fn set_enabled(&mut self, enabled: bool)
        ensures
            final(self)@ == (ObjectModel { is_enabled: enabled, ..old(self)@ }),
    {
        self.is_enabled = enabled;
        proof {
            assert(self@ =~~= (ObjectModel { is_enabled: enabled, ..old(self)@ }));
        }
    }

    /// The node's spatial state.
    pub fn get_data(&self) -> (r: &TransformData)
        ensures
            *r == self@.transform_data,
    {
        &self.transform_data
    }

    /// Mutable access to the node's spatial state.
    pub fn get_data_mut(&mut self) -> (r: &mut TransformData)
        ensures
            *r == old(self)@.transform_data,
            final(self)@ == (ObjectModel { transform_data: *final(r), ..old(self)@ }),
    {
        &mut self.transform_data
    }

    /// Wraps `logic` in a fresh component and appends it to the component
    /// list.  The node must be attached (designated root or added as a
    /// child): adding a component to a detached node is a programmer error.
    pub fn add_component(&mut self, logic: L)
        requires
            old(self)@.attached,
        ensures
            final(self)@ == (ObjectModel {
                components: old(self)@.components.push(Component::spec_new_component(logic)),
                ..old(self)@
            }),
    {
        self.components.push(Component::new(logic));
        proof {
            assert(self@ =~~= (ObjectModel {
                components: old(self)@.components.push(Component::spec_new_component(logic)),
                ..old(self)@
            }));
        }
    }

    /// Reparents `child` under this node: the child's parent and self
    /// references are assigned, the parent's world matrix is cached on it,
    /// and it is appended to the child list.  Returns the child's index.
    /// The node must be attached.
    pub fn add_child(&mut self, child: GameObject<L>) -> (idx: usize)
        requires
            old(self)@.attached,
        ensures
            idx == old(self)@.children.len(),
            final(self)@ == (ObjectModel {
                children: old(self)@.children.push(
                    spec_attach(child@, old(self)@.transform_data.world_space_matrix),
                ),
                ..old(self)@
            }),
    {
        let ghost child0 = child;
        let idx = self.children.len();
        proof {
            lemma_children_models_len(self.children@);
        }
        let mut child = child;
        child.has_parent = true;
        child.attached = true;
        child.transform_data.parent_world_matrix = self.transform_data.world_space_matrix;
        proof {
            assert(child.model() =~~= spec_attach(
                child0.model(),
                old(self)@.transform_data.world_space_matrix,
            ));
        }
        self.children.push(child);
        proof {
            lemma_children_models_push(old(self).children@, child);
            assert(self@ =~~= (ObjectModel {
                children: old(self)@.children.push(
                    spec_attach(child0@, old(self)@.transform_data.world_space_matrix),
                ),
                ..old(self)@
            }));
        }
        idx
    }

    /// The number of children.
    pub fn child_count(&self) -> (r: usize)
        ensures
            r == self@.children.len(),
    {
        let n = self.children.len();
        proof {
            lemma_children_models_len(self.children@);
            assert(self@.children == spec_children_models(self.children@));
        }
        n
    }

    /// The number of components.
    pub fn component_count(&self) -> (r: usize)
        ensures
            r == self@.components.len(),
    {
        self.components.len()
    }

    /// The child at `index`.
    pub fn get_child(&self, index: usize) -> (r: &GameObject<L>)
        requires
            index < self@.children.len(),
        ensures
            (*r)@ == self@.children[index as int],
    {
        proof {
            lemma_children_models_len(self.children@);
            lemma_children_models_index(self.children@, index as int);
            assert(self@.children == spec_children_models(self.children@));
        }
        &self.children[index]
    }

    /// Mutable access to the child at `index`.
    pub fn get_child_mut(&mut self, index: usize) -> (r: &mut GameObject<L>)
        requires
            index < old(self)@.children.len(),
        ensures
            (*r)@ == old(self)@.children[index as int],
            final(self)@ == (ObjectModel {
                children: spec_children_models(
                    old(self).spec_children().update(index as int, *final(r)),
                ),
                ..old(self)@
            }),
    {
        proof {
            lemma_children_models_len(self.children@);
            lemma_children_models_index(self.children@, index as int);
            assert(self@.children == spec_children_models(self.children@));
        }
        &mut self.children[index]
    }

    /// Runs the start pass over the subtree: a disabled node is skipped with
    /// its whole subtree; an enabled node dispatches `start` to its
    /// components in insertion order, then recurses into its children in
    /// insertion order.
    pub fn start(&mut self, state: &FrameState)
        requires
            state.wf(),
        ensures
            final(self)@ == spec_obj_start(old(self)@, *state),
    {
        let mut tmp = GameObject::new();
        core::mem::swap(self, &mut tmp);
        tmp = GameObject::start_node(tmp, state);
        core::mem::swap(self, &mut tmp);
    }

    fn start_node(node: GameObject<L>, state: &FrameState) -> (r: GameObject<L>)
        requires
            state.wf(),
        ensures
            r@ == spec_obj_start(node@, *state),
        decreases node,
    {
        if !node.is_enabled {
            return node;
        }
        let GameObject { is_enabled, transform_data, mut components, mut children, attached, has_parent } = node;
        let ghost m0 = components@;
        let n = components.len();
        for i in 0..n
            invariant
                state.wf(),
                n == components@.len(),
                components@.len() == m0.len(),
                forall|j: int| 0 <= j < i ==> components@[j] == m0[j].spec_comp_start(*state),
                forall|j: int| i <= j < m0.len() ==> components@[j] == m0[j],
        {
            components[i].start(state);
        }
        proof {
            assert(components@ =~= m0.map_values(
                |c: Component<L>| c.spec_comp_start(*state),
            ));
        }

        let ghost ch0 = children@;
        let mut new_children: Vec<GameObject<L>> = Vec::new();
        while children.len() > 0
            invariant
                state.wf(),
                new_children@.len() + children@.len() == ch0.len(),
                children@ == ch0.skip(new_children@.len() as int),
                ch0 == node.spec_children(),
                forall|j: int|
                    0 <= j < new_children@.len() ==> new_children@[j].model() == spec_obj_start(
                        ch0[j].model(),
                        *state,
                    ),
            decreases children@.len(),
        {
            let ghost k = new_children@.len() as int;
            let c = children.remove(0);
            proof {
                assert(c == ch0[k]);
                assert(decreases_to!(node => c));
            }
            let c2 = GameObject::start_node(c, state);
            new_children.push(c2);
            proof {
                assert(children@ =~= ch0.skip(new_children@.len() as int));
            }
        }

        let r = GameObject {
            is_enabled,
            transform_data,
            components,
            children: new_children,
            attached,
            has_parent,
        };
        proof {
            lemma_children_models_len(ch0);
            lemma_children_models_len(r.children@);
            lemma_objs_start_len(node@.children, *state);
            assert forall|j: int| 0 <= j < ch0.len() implies spec_children_models(r.children@)[j]
                == spec_objs_start(node@.children, *state)[j] by {
                lemma_children_models_index(r.children@, j);
                lemma_children_models_index(ch0, j);
                lemma_objs_start_index(node@.children, *state, j);
            }
            assert(spec_children_models(r.children@) =~= spec_objs_start(node@.children, *state));
            assert(r@ =~~= spec_obj_start(node@, *state));
        }
        r
    }

    /// Runs the update pass over the subtree, with the same gating and order
    /// as the start pass.
    pub fn update(&mut self, state: &FrameState)
        requires
            state.wf(),
        ensures
            final(self)@ == spec_obj_update(old(self)@, *state),
    {
        let mut tmp = GameObject::new();
        core::mem::swap(self, &mut tmp);
        tmp = GameObject::update_node(tmp, state);
        core::mem::swap(self, &mut tmp);
    }

    fn update_node(node: GameObject<L>, state: &FrameState) -> (r: GameObject<L>)
        requires
            state.wf(),
        ensures
            r@ == spec_obj_update(node@, *state),
        decreases node,
    {
        if !node.is_enabled {
            return node;
        }
        let GameObject { is_enabled, transform_data, mut components, mut children, attached, has_parent } = node;
        let ghost m0 = components@;
        let n = components.len();
        for i in 0..n
            invariant
                state.wf(),
                n == components@.len(),
                components@.len() == m0.len(),
                forall|j: int| 0 <= j < i ==> components@[j] == m0[j].spec_comp_update(*state),
                forall|j: int| i <= j < m0.len() ==> components@[j] == m0[j],
        {
            components[i].update(state);
        }
        proof {
            assert(components@ =~= m0.map_values(
                |c: Component<L>| c.spec_comp_update(*state),
            ));
        }

        let ghost ch0 = children@;
        let mut new_children: Vec<GameObject<L>> = Vec::new();
        while children.len() > 0
            invariant
                state.wf(),
                new_children@.len() + children@.len() == ch0.len(),
                children@ == ch0.skip(new_children@.len() as int),
                ch0 == node.spec_children(),
                forall|j: int|
                    0 <= j < new_children@.len() ==> new_children@[j].model() == spec_obj_update(
                        ch0[j].model(),
                        *state,
                    ),
            decreases children@.len(),
        {
            let ghost k = new_children@.len() as int;
            let c = children.remove(0);
            proof {
                assert(c == ch0[k]);
                assert(decreases_to!(node => c));
            }
            let c2 = GameObject::update_node(c, state);
            new_children.push(c2);
            proof {
                assert(children@ =~= ch0.skip(new_children@.len() as int));
            }
        }

        let r = GameObject {
            is_enabled,
            transform_data,
            components,
            children: new_children,
            attached,
            has_parent,
        };
        proof {
            lemma_children_models_len(ch0);
            lemma_children_models_len(r.children@);
            lemma_objs_update_len(node@.children, *state);
            assert forall|j: int| 0 <= j < ch0.len() implies spec_children_models(r.children@)[j]
                == spec_objs_update(node@.children, *state)[j] by {
                lemma_children_models_index(r.children@, j);
                lemma_children_models_index(ch0, j);
                lemma_objs_update_index(node@.children, *state, j);
            }
            assert(spec_children_models(r.children@) =~= spec_objs_update(node@.children, *state));
            assert(r@ =~~= spec_obj_update(node@, *state));
        }
        r
    }

    /// Collects the rendering commands of the read-only draw pass, with the
    /// same gating and order as the other traversals: a node's components
    /// draw before any of its children.
    pub fn draw(&self) -> (cmds: Vec<DrawCmd>)
        ensures
            cmds@ == spec_obj_draw(self@),
    {
        GameObject::draw_node(self)
    }

    fn draw_node(node: &GameObject<L>) -> (cmds: Vec<DrawCmd>)
        ensures
            cmds@ == spec_obj_draw(node@),
        decreases *node,
    {
        let mut out: Vec<DrawCmd> = Vec::new();
        if !node.is_enabled {
            return out;
        }
        let n = node.components.len();
        for i in 0..n
            invariant
                n == node.components@.len(),
                out@ == spec_comps_draw(node@.components.take(i as int)),
        {
            proof {
                assert(node@.components.take(i + 1).drop_last() =~= node@.components.take(
                    i as int,
                ));
                assert(node@.components.take(i + 1).last() == node@.components[i as int]);
            }
            let mut cs = node.components[i].draw();
            out.append(&mut cs);
        }
        proof {
            assert(node@.components.take(n as int) =~= node@.components);
        }

        let m = node.children.len();
        proof {
            lemma_children_models_len(node.children@);
        }
        for i in 0..m
            invariant
                m == node.children@.len(),
                m == node@.children.len(),
                out@ == spec_comps_draw(node@.components) + spec_objs_draw(
                    node@.children.take(i as int),
                ),
            decreases m - i,
        {
            proof {
                lemma_children_models_len(node.children@);
                lemma_children_models_index(node.children@, i as int);
                assert(node@.children.take(i + 1).drop_last() =~= node@.children.take(i as int));
                assert(node@.children.take(i + 1).last() == node@.children[i as int]);
                assert(decreases_to!(*node => node.children@[i as int]));
            }
            let child = &node.children[i];
            let mut cs = GameObject::draw_node(child);
            out.append(&mut cs);
        }
        proof {
            lemma_children_models_len(node.children@);
            assert(node@.children.take(m as int) =~= node@.children);
        }
        out
    }

    /// The local model matrix `T(local_position) * R(local_rotation) *
    /// S(local_scale)`.
    pub fn calculate_local_model_matrix(&self) -> (r: Mat4)
        ensures
            r@ == spec_local_model(
                self@.transform_data.local_position@,
                self@.transform_data.local_rotation@,
                self@.transform_data.local_scale@,
            ),
    {
        Mat4::from_vec(&self.transform_data.local_model_matrix_vec())
    }

    /// Recomputes the subtree's matrices: the node's world matrix is the
    /// cached parent world matrix times its local model matrix, the global
    /// components are its decomposition, and the new world matrix is
    /// propagated to every child immediately.
    pub fn update_matrix(&mut self)
        ensures
            final(self)@ == spec_obj_update_matrix(
                old(self)@,
                old(self)@.transform_data.parent_world_matrix@,
            ),
    {
        let mut tmp = GameObject::new();
        core::mem::swap(self, &mut tmp);
        let pw = tmp.transform_data.parent_world_matrix;
        tmp = GameObject::update_matrix_node(tmp, &pw);
        core::mem::swap(self, &mut tmp);
    }

    fn update_matrix_node(node: GameObject<L>, pw: &Mat4) -> (r: GameObject<L>)
        ensures
            r@ == spec_obj_update_matrix(node@, pw@),
        decreases node,
    {
        let GameObject { is_enabled, mut transform_data, components, mut children, attached, has_parent } = node;
        transform_data.update_from_parent(pw);
        let world = transform_data.world_space_matrix;

        let ghost ch0 = children@;
        let mut new_children: Vec<GameObject<L>> = Vec::new();
        while children.len() > 0
            invariant
                new_children@.len() + children@.len() == ch0.len(),
                children@ == ch0.skip(new_children@.len() as int),
                ch0 == node.spec_children(),
                world == spec_transform_updated(node@.transform_data, pw@).world_space_matrix,
                forall|j: int|
                    0 <= j < new_children@.len() ==> new_children@[j].model()
                        == spec_obj_update_matrix(ch0[j].model(), world@),
            decreases children@.len(),
        {
            let ghost k = new_children@.len() as int;
            let c = children.remove(0);
            proof {
                assert(c == ch0[k]);
                assert(decreases_to!(node => c));
            }
            let c2 = GameObject::update_matrix_node(c, &world);
            new_children.push(c2);
            proof {
                assert(children@ =~= ch0.skip(new_children@.len() as int));
            }
        }

        let r = GameObject {
            is_enabled,
            transform_data,
            components,
            children: new_children,
            attached,
            has_parent,
        };
        proof {
            lemma_children_models_len(ch0);
            lemma_children_models_len(r.children@);
            lemma_objs_update_matrix_len(node@.children, world@);
            assert forall|j: int| 0 <= j < ch0.len() implies spec_children_models(r.children@)[j]
                == spec_objs_update_matrix(node@.children, world@)[j] by {
                lemma_children_models_index(r.children@, j);
                lemma_children_models_index(ch0, j);
                lemma_objs_update_matrix_index(node@.children, world@, j);
            }
            assert(spec_children_models(r.children@) =~= spec_objs_update_matrix(
                node@.children,
                world@,
            ));
            assert(r@ =~~= spec_obj_update_matrix(node@, pw@));
        }
        r
    }

    /// Re-derives the local components by decomposing the local model
    /// matrix, then recomputes the subtree's matrices.
    pub fn update_matrix_with_locals(&mut self)
        ensures
            final(self)@ == spec_obj_update_matrix(
                spec_with_locals_rederived(old(self)@),
                old(self)@.transform_data.parent_world_matrix@,
            ),
    {
        let lm = Mat4::from_vec(&self.transform_data.local_model_matrix_vec());
        let dec = MatrixUtils::decompose_matrix(lm);
        self.transform_data.local_position = dec.translation;
        self.transform_data.local_rotation = dec.rotation;
        self.transform_data.local_scale = dec.scale;
        proof {
            assert(self.transform_data.local_position =~= spec_with_locals_rederived(
                old(self)@,
            ).transform_data.local_position);
            assert(self@ =~~= spec_with_locals_rederived(old(self)@));
        }
        self.update_matrix();
    }

    /// The node's world matrix.
    pub fn get_world_space_matrx(&self) -> (r: Mat4)
        ensures
            r == self@.transform_data.world_space_matrix,
    {
        self.transform_data.world_space_matrix
    }

    /// Moves the node to the world position `position`: the equivalent
    /// local position is stored and the subtree's matrices recomputed.
    pub fn set_global_position(&mut self, position: Vec3)
        ensures
            final(self)@ == spec_obj_update_matrix(
                spec_with_local_position(
                    old(self)@,
                    spec_global_to_local_position(old(self)@, position),
                ),
                old(self)@.transform_data.parent_world_matrix@,
            ),
    {
        if self.has_parent {
            let inv = glm_mat4_inverse(&self.transform_data.parent_world_matrix.to_vec());
            let mut hp = position.to_vec();
            hp.push(ONE_BITS);
            proof {
                assert(hp@ =~= position@.push(ONE_BITS));
            }
            let rel = glm_mat4_mul_vec4(&inv, &hp);
            self.transform_data.local_position = Vec3 { x: rel[0], y: rel[1], z: rel[2] };
            proof {
                assert(self.transform_data.local_position =~= spec_global_to_local_position(
                    old(self)@,
                    position,
                ));
            }
        } else {
            self.transform_data.local_position = position;
        }
        proof {
            assert(self@ =~~= spec_with_local_position(
                old(self)@,
                spec_global_to_local_position(old(self)@, position),
            ));
        }
        self.update_matrix();
    }

    /// Rotates the node to the world rotation `rotation`: the equivalent
    /// local rotation is stored and the subtree's matrices recomputed.
    pub fn set_global_rotation(&mut self, rotation: Quat)
        ensures
            final(self)@ == spec_obj_update_matrix(
                spec_with_local_rotation(
                    old(self)@,
                    spec_global_to_local_rotation(old(self)@, rotation),
                ),
                old(self)@.transform_data.parent_world_matrix@,
            ),
    {
        if self.has_parent {
            let inv = glm_mat4_inverse(&self.transform_data.parent_world_matrix.to_vec());
            let rm = crate::float_ops::glm_quat_to_mat4(&rotation.to_vec());
            let rel = crate::float_ops::glm_mat4_mul(&inv, &rm);
            let dec = MatrixUtils::decompose_matrix(Mat4::from_vec(&rel));
            self.transform_data.local_rotation = dec.rotation;
            proof {
                assert(self.transform_data.local_rotation =~= spec_global_to_local_rotation(
                    old(self)@,
                    rotation,
                ));
            }
        } else {
            self.transform_data.local_rotation = rotation;
        }
        proof {
            assert(self@ =~~= spec_with_local_rotation(
                old(self)@,
                spec_global_to_local_rotation(old(self)@, rotation),
            ));
        }
        self.update_matrix();
    }

    /// Stores a new local position and recomputes the subtree's matrices.
    pub fn set_local_position(&mut self, position: Vec3)
        ensures
            final(self)@ == spec_obj_update_matrix(
                spec_with_local_position(old(self)@, position),
                old(self)@.transform_data.parent_world_matrix@,
            ),
    {
        self.transform_data.local_position = position;
        proof {
            assert(self@ =~~= spec_with_local_position(old(self)@, position));
        }
        self.update_matrix();
    }

    /// Stores a new local scale and recomputes the subtree's matrices.
    pub fn set_local_scale(&mut self, scale: Vec3)
        ensures
            final(self)@ == spec_obj_update_matrix(
                spec_with_local_scale(old(self)@, scale),
                old(self)@.transform_data.parent_world_matrix@,
            ),
    {
        self.transform_data.local_scale = scale;
        proof {
            assert(self@ =~~= spec_with_local_scale(old(self)@, scale));
        }
        self.update_matrix();
    }

    /// Stores a new local rotation and recomputes the subtree's matrices.
    pub fn set_local_rotation(&mut self, rotation: Quat)
        ensures
            final(self)@ == spec_obj_update_matrix(
                spec_with_local_rotation(old(self)@, rotation),
                old(self)@.transform_data.parent_world_matrix@,
            ),
    {
        self.transform_data.local_rotation = rotation;
        proof {
            assert(self@ =~~= spec_with_local_rotation(old(self)@, rotation));
        }
        self.update_matrix();
    }

    /// The node's local position.
    pub fn get_local_position(&self) -> (r: Vec3)
        ensures
            r == self@.transform_data.local_position,
    {
        self.transform_data.local_position
    }

    /// The node's local rotation.
    pub fn get_local_rotation(&self) -> (r: Quat)
        ensures
            r == self@.transform_data.local_rotation,
    {
        self.transform_data.local_rotation
    }

    /// The node's local scale.
    pub fn get_local_scale(&self) -> (r: Vec3)
        ensures
            r == self@.transform_data.local_scale,
    {
        self.transform_data.local_scale
    }

    /// The node's global position: the translation part of its world
    /// matrix.
    pub fn get_global_position(&self) -> (r: Vec3)
        ensures
            r == self@.transform_data.global_position,
    {
        self.transform_data.global_position
    }

    /// The node's global rotation: the rotation part of its world matrix.
    pub fn get_global_rotation(&self) -> (r: Quat)
        ensures
            r == self@.transform_data.global_rotation,
    {
        self.transform_data.global_rotation
    }

    /// The node's global scale: the scale part of its world matrix.
    pub fn get_global_scale(&self) -> (r: Vec3)
        ensures
            r == self@.transform_data.global_scale,
    {
        self.transform_data.global_scale
    }

    /// The global rotation applied to the canonical forward axis (0, 0, 1).
    pub fn get_forward_vector(&self) -> (r: Vec3)
        ensures
            r@ == spec_quat_rotate_vec3(
                self@.transform_data.global_rotation@,
                seq![ZERO_BITS, ZERO_BITS, ONE_BITS],
            ),
    {
        let axis = Vec3 { x: ZERO_BITS, y: ZERO_BITS, z: ONE_BITS };
        proof {
            assert(axis@ =~= seq![ZERO_BITS, ZERO_BITS, ONE_BITS]);
        }
        Vec3::from_vec(
            &glm_quat_rotate_vec3(&self.transform_data.global_rotation.to_vec(), &axis.to_vec()),
        )
    }

    /// The global rotation applied to the canonical up axis (0, 1, 0).
    pub fn get_up_vector(&self) -> (r: Vec3)
        ensures
            r@ == spec_quat_rotate_vec3(
                self@.transform_data.global_rotation@,
                seq![ZERO_BITS, ONE_BITS, ZERO_BITS],
            ),
    {
        let axis = Vec3 { x: ZERO_BITS, y: ONE_BITS, z: ZERO_BITS };
        proof {
            assert(axis@ =~= seq![ZERO_BITS, ONE_BITS, ZERO_BITS]);
        }
        Vec3::from_vec(
            &glm_quat_rotate_vec3(&self.transform_data.global_rotation.to_vec(), &axis.to_vec()),
        )
    }

    /// The global rotation applied to the canonical right axis (1, 0, 0).
    pub fn get_right_vector(&self) -> (r: Vec3)
        ensures
            r@ == spec_quat_rotate_vec3(
                self@.transform_data.global_rotation@,
                seq![ONE_BITS, ZERO_BITS, ZERO_BITS],
            ),
    {
        let axis = Vec3 { x: ONE_BITS, y: ZERO_BITS, z: ZERO_BITS };
        proof {
            assert(axis@ =~= seq![ONE_BITS, ZERO_BITS, ZERO_BITS]);
        }
        Vec3::from_vec(
            &glm_quat_rotate_vec3(&self.transform_data.global_rotation.to_vec(), &axis.to_vec()),
        )
    }

    /// The component at `index`.
    pub fn get_component(&self, index: usize) -> (r: &Component<L>)
        requires
            index < self@.components.len(),
        ensures
            *r == self@.components[index as int],
    {
        &self.components[index]
    }

    /// Mutable access to the component at `index`.
    pub fn get_component_mut(&mut self, index: usize) -> (r: &mut Component<L>)
        requires
            index < old(self)@.components.len(),
        ensures
            *r == old(self)@.components[index as int],
            final(self)@ == (ObjectModel {
                components: old(self)@.components.update(index as int, *final(r)),
                ..old(self)@
            }),
    {
        &mut self.components[index]
    }
}

} // verus!
