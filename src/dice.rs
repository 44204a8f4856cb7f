use vstd::prelude::*;
use crate::bounds::{bounding_volume, is_bounding_volume, ordered, Aabb, lemma_bounding_volume_ordered};
use crate::material::{BindOp, Material};
use crate::overlay::{overlay_of, overlay_segments, Segment};
use crate::vertex::{missing_in, upload, uploaded, MissingAttributes, SourceVertex, Vertex};

verus! {

/// What the picking system queued on the entity's bounding volume.
#[derive(Clone, Copy, Debug, PartialEq, Eq, Structural)]
pub enum Action<T> {
    /// The entity was clicked: it becomes the selected one.
    Click,
    /// The entity was dragged to a new world transform.
    Drag { new_isometry: T },
}

/// What the entity asks of its collaborators, in order.
#[derive(Clone, Copy, Debug, PartialEq, Eq, Structural)]
pub enum Effect<T> {
    /// Tell the selection registry that this entity is now selected.
    Select,
    /// Move the registered bounding volume (if any) and the debug overlay to
    /// this transform.
    Pose(T),
}

/// Why an entity could not be built from an imported model.
#[derive(Clone, Copy, Debug, PartialEq, Eq, Structural)]
pub enum DiceError {
    /// No mesh of the model uses the model's first material (or, where the
    /// model has no material, no mesh is without one).
    NoMesh,
}

/// One mesh of an imported model.
#[derive(Clone, Debug)]
pub struct MeshData {
    /// Index of the model material the mesh uses, if any.
    pub material_index: Option<usize>,
    pub vertices: Vec<SourceVertex>,
    /// Number of triangle indices of the mesh.
    pub index_count: usize,
}

/// The GPU work of one render: bind the material, then draw `index_count`
/// indices with `model` as the model transform.
#[derive(Clone, Debug)]
pub struct DrawCall<T> {
    pub binds: Vec<BindOp>,
    pub model: T,
    pub index_count: usize,
}

/// The abstract state of an entity.
pub struct DiceModel<T> {
    /// The render transform.
    pub transform: T,
    /// The local-space bounding volume and its registered world pose.
    pub volume: Option<(Aabb, T)>,
    /// The pose of the debug overlay.
    pub overlay_pose: T,
    pub overlay: Seq<Segment>,
    pub vertices: Seq<Vertex>,
    pub material: Material,
    pub index_count: nat,
    pub missing: MissingAttributes,
}

/// The three views of where the entity is agree, and the derived geometry is
/// that of the uploaded vertices.
pub open spec fn well_formed<T>(m: DiceModel<T>) -> bool {
    &&& m.overlay_pose == m.transform
    &&& (m.volume is None <==> m.vertices.len() == 0)
    &&& (m.volume matches Some((b, p)) ==> p == m.transform && is_bounding_volume(b, m.vertices))
    &&& m.overlay == overlay_of(m.vertices)
}

/// The state after moving the entity to `t`: render transform, bounding
/// volume pose and overlay pose all become `t`; nothing else changes.
pub open spec fn with_transform<T>(m: DiceModel<T>, t: T) -> DiceModel<T> {
    DiceModel {
        transform: t,
        volume: match m.volume {
            Some((b, _)) => Some((b, t)),
            None => None,
        },
        overlay_pose: t,
        ..m
    }
}

/// The state after applying one action.
pub open spec fn applied<T>(m: DiceModel<T>, a: Action<T>) -> DiceModel<T> {
    match a {
        Action::Click => m,
        Action::Drag { new_isometry } => with_transform(m, new_isometry),
    }
}

/// The effect that one action asks for.
pub open spec fn effect_of<T>(a: Action<T>) -> Effect<T> {
    match a {
        Action::Click => Effect::Select,
        Action::Drag { new_isometry } => Effect::Pose(new_isometry),
    }
}

/// The state after applying `actions` in order.
pub open spec fn applied_all<T>(m: DiceModel<T>, actions: Seq<Action<T>>) -> DiceModel<T>
    decreases actions.len(),
{
    if actions.len() == 0 {
        m
    } else {
        applied(applied_all(m, actions.drop_last()), actions.last())
    }
}

/// The state after one update tick that drains `actions`: an entity without a
/// bounding volume has no actions to drain.
pub open spec fn drained<T>(m: DiceModel<T>, actions: Seq<Action<T>>) -> DiceModel<T> {
    if m.volume is None {
        m
    } else {
        applied_all(m, actions)
    }
}

/// The effects of one update tick that drains `actions`, in order.
pub open spec fn drain_effects<T>(m: DiceModel<T>, actions: Seq<Action<T>>) -> Seq<Effect<T>> {
    if m.volume is None {
        seq![]
    } else {
        actions.map_values(|a: Action<T>| effect_of(a))
    }
}

/// Index of the first mesh whose material index is `wanted`.
pub open spec fn first_mesh_with(meshes: Seq<Option<usize>>, wanted: Option<usize>, k: int) -> bool {
    0 <= k < meshes.len() && meshes[k] == wanted && forall|j: int| 0 <= j < k ==> meshes[j] != wanted
}

/// The material index an entity draws with: the model's first material, or
/// none where the model has no material.
pub open spec fn wanted_material(material_count: nat) -> Option<usize> {
    if material_count > 0 {
        Some(0usize)
    } else {
        None
    }
}

/// The first mesh whose material index is `wanted`, or `None`.
pub fn select_mesh(meshes: &Vec<MeshData>, wanted: Option<usize>) -> (r: Option<usize>)
    ensures
        r matches Some(k) ==> first_mesh_with(meshes@.map_values(|m: MeshData| m.material_index), wanted, k as int),
        r is None ==> forall|j: int| 0 <= j < meshes@.len() ==> (#[trigger] meshes@[j]).material_index != wanted,
{
    let ghost idx = meshes@.map_values(|m: MeshData| m.material_index);
    let mut i: usize = 0;
    while i < meshes.len()
        invariant
            i <= meshes@.len(),
            idx == meshes@.map_values(|m: MeshData| m.material_index),
            forall|j: int| 0 <= j < i ==> (#[trigger] meshes@[j]).material_index != wanted,
        decreases meshes@.len() - i,
    {
        if meshes[i].material_index == wanted {
            assert forall|j: int| 0 <= j < i implies idx[j] != wanted by {
                assert(meshes@[j].material_index != wanted);
            }
            return Some(i);
        }
        i = i + 1;
    }
    None
}

/// An interactive renderable entity: a mesh with its material, a world
/// transform, a debug overlay of normals and tangents, and a selectable
/// bounding volume where the mesh has vertices.
pub struct Dice<T> {
    transform: T,
    material: Material,
    vertices: Vec<Vertex>,
    index_count: usize,
    missing: MissingAttributes,
    debug_tangent_normals: Vec<Segment>,
    overlay_pose: T,
    selectable_aabb: Option<(Aabb, T)>,
}

impl<T> View for Dice<T> {
    type V = DiceModel<T>;

    closed spec fn view(&self) -> DiceModel<T> {
        DiceModel {
            transform: self.transform,
            volume: self.selectable_aabb,
            overlay_pose: self.overlay_pose,
            overlay: self.debug_tangent_normals@,
            vertices: self.vertices@,
            material: self.material,
            index_count: self.index_count as nat,
            missing: self.missing,
        }
    }
}

impl<T: Copy> Dice<T> {
    /// Builds the entity from an imported model: picks the first mesh that
    /// uses the model's first material, uploads its vertices, derives the
    /// overlay and the bounding volume, and places everything at `initial`.
    pub fn new(material: Material, material_count: usize, meshes: &Vec<MeshData>, initial: T) -> (r: Result<Dice<T>, DiceError>)
        ensures
            r is Err <==> forall|j: int|
                0 <= j < meshes@.len() ==> (#[trigger] meshes@[j]).material_index != wanted_material(material_count as nat),
            r matches Ok(d) ==> {
                &&& well_formed(d@)
                &&& exists|k: int|
                    first_mesh_with(
                        meshes@.map_values(|m: MeshData| m.material_index),
                        wanted_material(material_count as nat),
                        k,
                    ) && d@.vertices == meshes@[k].vertices@.map_values(|s: SourceVertex| uploaded(s))
                        && d@.missing == missing_in(meshes@[k].vertices@)
                        && d@.index_count == meshes@[k].index_count
                &&& d@.transform == initial
                &&& d@.material == material
            },
    {
        let wanted = if material_count > 0 {
            Some(0usize)
        } else {
            None
        };
        let k = match select_mesh(meshes, wanted) {
            Some(k) => k,
            None => {
                return Err(DiceError::NoMesh);
            },
        };
        let mesh = &meshes[k];
        let (vertices, missing) = upload(&mesh.vertices);
        assert(vertices@ =~= mesh.vertices@.map_values(|s: SourceVertex| uploaded(s)));
        let overlay = overlay_segments(&vertices);
        let aabb = bounding_volume(&vertices);
        let selectable_aabb = match aabb {
            Some(b) => Some((b, initial)),
            None => None,
        };
        Ok(
            Dice {
                transform: initial,
                material,
                vertices,
                index_count: mesh.index_count,
                missing,
                debug_tangent_normals: overlay,
                overlay_pose: initial,
                selectable_aabb,
            },
        )
    }
    /// Moves the entity: the render transform, the bounding volume's pose
    /// and the overlay's pose all become `isometry`. The only way to move it.
    pub fn set_transform(&mut self, isometry: T)
        requires
            well_formed(old(self)@),
        ensures
            final(self)@ == with_transform(old(self)@, isometry),
            well_formed(final(self)@),
    {
        self.transform = isometry;
        if let Some((b, _)) = self.selectable_aabb {
            self.selectable_aabb = Some((b, isometry));
        }
        self.overlay_pose = isometry;
    }

    /// One update tick: drains the actions queued on the bounding volume, in
    /// order. A click asks for selection; a drag moves the entity. Returns
    /// the effects for the collaborators, in order. Without a bounding volume
    /// nothing is drained and nothing changes.
    pub fn update(&mut self, pending: Vec<Action<T>>) -> (effects: Vec<Effect<T>>)
        requires
            well_formed(old(self)@),
        ensures
            final(self)@ == drained(old(self)@, pending@),
            effects@ == drain_effects(old(self)@, pending@),
            well_formed(final(self)@),
    {
        let mut effects: Vec<Effect<T>> = Vec::new();
        if self.selectable_aabb.is_none() {
            return effects;
        }
        let ghost m0 = self@;
        let mut i: usize = 0;
        while i < pending.len()
            invariant
                i <= pending@.len(),
                m0.volume is Some,
                self@ == applied_all(m0, pending@.subrange(0, i as int)),
                effects@ == pending@.subrange(0, i as int).map_values(|a: Action<T>| effect_of(a)),
                well_formed(self@),
            decreases pending@.len() - i,
        {
            proof {
                assert(pending@.subrange(0, i as int + 1).drop_last() =~= pending@.subrange(0, i as int));
                assert(pending@.subrange(0, i as int + 1).last() == pending@[i as int]);
            }
            match pending[i] {
                Action::Click => {
                    effects.push(Effect::Select);
                },
                Action::Drag { new_isometry } => {
                    self.set_transform(new_isometry);
                    effects.push(Effect::Pose(new_isometry));
                },
            }
            assert(effects@ =~= pending@.subrange(0, i as int + 1).map_values(
                |a: Action<T>| effect_of(a),
            ));
            i = i + 1;
        }
        assert(pending@.subrange(0, pending@.len() as int) =~= pending@);
        effects
    }

    /// The GPU work of one render: the material binding, given which of the
    /// two textures are loaded, and an indexed draw of the mesh at the
    /// current transform.
    pub fn render(&self, has_texture: bool, has_normals: bool) -> (r: DrawCall<T>)
        ensures
            r.binds@ == self@.material.bind_plan(has_texture, has_normals),
            r.model == self@.transform,
            r.index_count == self@.index_count,
    {
        DrawCall {
            binds: self.material.bind(has_texture, has_normals),
            model: self.transform,
            index_count: self.index_count,
        }
    }

    /// The render transform.
    pub fn transform(&self) -> (r: T)
        ensures
            r == self@.transform,
    {
        self.transform
    }

    /// The local-space bounding volume and its world pose; `None` where the
    /// mesh has no vertex.
    pub fn bounding_volume(&self) -> (r: Option<(Aabb, T)>)
        ensures
            r == self@.volume,
    {
        self.selectable_aabb
    }

    /// The pose of the debug overlay.
    pub fn overlay_pose(&self) -> (r: T)
        ensures
            r == self@.overlay_pose,
    {
        self.overlay_pose
    }

    /// The debug overlay's segments.
    pub fn overlay(&self) -> (r: &Vec<Segment>)
        ensures
            r@ == self@.overlay,
    {
        &self.debug_tangent_normals
    }

    /// The uploaded vertices.
    pub fn vertices(&self) -> (r: &Vec<Vertex>)
        ensures
            r@ == self@.vertices,
    {
        &self.vertices
    }

    /// The attribute categories that needed a fallback at upload.
    pub fn missing_attributes(&self) -> (r: MissingAttributes)
        ensures
            r == self@.missing,
    {
        self.missing
    }
}

/// Moving the entity twice to the same transform leaves it where one move
/// does: render pose, bounding volume pose and overlay pose alike.
pub proof fn lemma_set_transform_idempotent<T>(m: DiceModel<T>, t: T)
    ensures
        with_transform(with_transform(m, t), t) == with_transform(m, t),
{
}

/// Moving a well-formed entity keeps it well-formed: the three poses agree.
pub proof fn lemma_set_transform_synced<T>(m: DiceModel<T>, t: T)
    requires
        well_formed(m),
    ensures
        well_formed(with_transform(m, t)),
        with_transform(m, t).transform == t,
        with_transform(m, t).overlay_pose == t,
        with_transform(m, t).volume matches Some((_, p)) ==> p == t,
{
}

/// Draining a drag to `t1`, a click and a drag to `t2` in one tick leaves the
/// entity at `t2` and asks for exactly one selection, between the two moves.
pub proof fn lemma_drag_click_drag<T>(m: DiceModel<T>, t1: T, t2: T)
    requires
        m.volume is Some,
    ensures
        drained(
            m,
            seq![Action::Drag { new_isometry: t1 }, Action::Click, Action::Drag { new_isometry: t2 }],
        ) == with_transform(m, t2),
        drain_effects(
            m,
            seq![Action::Drag { new_isometry: t1 }, Action::Click, Action::Drag { new_isometry: t2 }],
        ) == seq![Effect::Pose(t1), Effect::Select, Effect::Pose(t2)],
{
    let a = seq![Action::Drag { new_isometry: t1 }, Action::Click, Action::Drag { new_isometry: t2 }];
    assert(a.drop_last() =~= seq![Action::Drag { new_isometry: t1 }, Action::Click]);
    assert(a.drop_last().drop_last() =~= seq![Action::Drag { new_isometry: t1 }]);
    assert(a.drop_last().drop_last().drop_last() =~= Seq::<Action<T>>::empty());
    let m1 = with_transform(m, t1);
    assert(applied_all(m, a.drop_last().drop_last().drop_last()) == m);
    assert(a.drop_last().drop_last().last() == Action::Drag { new_isometry: t1 });
    assert(a.drop_last().last() == Action::<T>::Click);
    assert(a.last() == Action::Drag { new_isometry: t2 });
    assert(applied_all(m, a.drop_last().drop_last()) == m1);
    assert(applied_all(m, a.drop_last()) == m1);
    assert(applied_all(m, a) == with_transform(m1, t2));
    assert(with_transform(m1, t2) == with_transform(m, t2));
    assert(drain_effects(m, a) =~= seq![Effect::Pose(t1), Effect::Select, Effect::Pose(t2)]);
}

/// Draining an empty queue changes nothing and asks for nothing.
pub proof fn lemma_drain_empty<T>(m: DiceModel<T>)
    ensures
        drained(m, Seq::<Action<T>>::empty()) == m,
        drain_effects(m, Seq::<Action<T>>::empty()) == Seq::<Effect<T>>::empty(),
{
    assert(drain_effects(m, Seq::<Action<T>>::empty()) =~= Seq::<Effect<T>>::empty());
}

/// An entity without a bounding volume ignores every queue: an update is a
/// no-op.
pub proof fn lemma_no_volume_no_op<T>(m: DiceModel<T>, actions: Seq<Action<T>>)
    requires
        m.volume is None,
    ensures
        drained(m, actions) == m,
        drain_effects(m, actions) == Seq::<Effect<T>>::empty(),
{
    assert(drain_effects(m, actions) =~= Seq::<Effect<T>>::empty());
}

/// The bounding volume of a well-formed entity has its min corner below its
/// max corner on every axis and holds every uploaded vertex; an entity whose
/// mesh has no vertex has none.
pub proof fn lemma_volume_ordered<T>(m: DiceModel<T>)
    requires
        well_formed(m),
    ensures
        m.vertices.len() == 0 ==> m.volume is None,
        m.volume matches Some((b, _)) ==> ordered(b) && is_bounding_volume(b, m.vertices),
{
    if let Some((b, _)) = m.volume {
        lemma_bounding_volume_ordered(b, m.vertices);
    }
}

} // verus!
