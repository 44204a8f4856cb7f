use dice_entity::bounds::{bounding_volume, key_of, Aabb};
use dice_entity::dice::{Action, Dice, DiceError, Effect, MeshData};
use dice_entity::material::{BindOp, Material, Slot};
use dice_entity::overlay::{overlay_segments, MarkerColor};
use dice_entity::vertex::{upload, Float2, Float3, SourceVertex, Vertex};

fn f3(x: f32, y: f32, z: f32) -> Float3 {
    Float3 { d0: x.to_bits(), d1: y.to_bits(), d2: z.to_bits() }
}

fn f2(x: f32, y: f32) -> Float2 {
    Float2 { d0: x.to_bits(), d1: y.to_bits() }
}

fn full(x: f32, y: f32, z: f32) -> SourceVertex {
    SourceVertex {
        pos: f3(x, y, z),
        uv: Some(f2(0.25, 0.5)),
        tangent: Some(f3(1.0, 0.0, 0.0)),
        normal: Some(f3(0.0, 0.0, 1.0)),
    }
}

fn all_slots() -> Material {
    Material::load_for(|s: Slot| match s {
        Slot::Texture => Some(3),
        Slot::Normals => Some(4),
        Slot::ViewProjection => Some(0),
        Slot::Model => Some(1),
        Slot::CameraPos => Some(2),
    })
}

fn dice_of(vs: Vec<SourceVertex>) -> Dice<(i32, i32)> {
    let meshes = vec![MeshData { material_index: Some(0), vertices: vs, index_count: 6 }];
    Dice::new(all_slots(), 1, &meshes, (0, 0)).unwrap()
}

fn triangle() -> Vec<SourceVertex> {
    vec![full(0.0, 0.0, 0.0), full(1.0, 0.0, 0.0), full(0.0, 1.0, 0.0)]
}

#[test]
fn triangle_bounding_volume() {
    let (vs, _) = upload(&triangle());
    let b = bounding_volume(&vs).unwrap();
    assert_eq!(b, Aabb { mins: f3(0.0, 0.0, 0.0), maxs: f3(1.0, 1.0, 0.0) });
}

#[test]
fn bounding_volume_with_negative_coordinates() {
    let (vs, _) = upload(&vec![full(-2.0, 3.0, -0.5), full(1.5, -4.0, -0.25), full(0.0, 0.0, -8.0)]);
    let b = bounding_volume(&vs).unwrap();
    assert_eq!(b.mins, f3(-2.0, -4.0, -8.0));
    assert_eq!(b.maxs, f3(1.5, 3.0, -0.25));
    for v in vs.iter() {
        let p = [v.pos.d0, v.pos.d1, v.pos.d2];
        let lo = [b.mins.d0, b.mins.d1, b.mins.d2];
        let hi = [b.maxs.d0, b.maxs.d1, b.maxs.d2];
        for a in 0..3 {
            assert!(key_of(lo[a]) <= key_of(p[a]));
            assert!(key_of(p[a]) <= key_of(hi[a]));
            assert!(f32::from_bits(lo[a]) <= f32::from_bits(hi[a]));
        }
    }
}

#[test]
fn single_vertex_volume_is_a_point() {
    let (vs, _) = upload(&vec![full(2.0, -1.0, 7.0)]);
    let b = bounding_volume(&vs).unwrap();
    assert_eq!(b.mins, b.maxs);
}

#[test]
fn empty_vertex_set_has_no_volume() {
    let vs: Vec<Vertex> = Vec::new();
    assert!(bounding_volume(&vs).is_none());
}

#[test]
fn order_key_follows_float_order() {
    let xs: [f32; 7] = [-1.0e30, -2.5, -0.0, 0.0, 1.0e-20, 3.0, 1.0e30];
    for w in xs.windows(2) {
        assert!(key_of(w[0].to_bits()) < key_of(w[1].to_bits()));
    }
}

#[test]
fn missing_tangent_gives_nan_and_keeps_other_vertices() {
    let mut second = full(1.0, 2.0, 3.0);
    second.tangent = None;
    let (vs, missing) = upload(&vec![full(0.0, 0.0, 0.0), second, full(4.0, 5.0, 6.0)]);
    assert_eq!(vs.len(), 3);
    assert!(f32::from_bits(vs[1].t.d0).is_nan());
    assert!(f32::from_bits(vs[1].t.d1).is_nan());
    assert!(f32::from_bits(vs[1].t.d2).is_nan());
    assert_eq!(vs[0].t, f3(1.0, 0.0, 0.0));
    assert_eq!(vs[2].t, f3(1.0, 0.0, 0.0));
    assert_eq!(vs[2].pos, f3(4.0, 5.0, 6.0));
    assert!(missing.tangent);
    assert!(!missing.uv);
    assert!(!missing.normal);
}

#[test]
fn missing_uv_and_normal_fall_back_to_zero() {
    let s = SourceVertex { pos: f3(1.0, 1.0, 1.0), uv: None, tangent: None, normal: None };
    let (vs, missing) = upload(&vec![s, s]);
    assert_eq!(f32::from_bits(vs[0].uv.d0), 0.0);
    assert_eq!(f32::from_bits(vs[0].uv.d1), 0.0);
    assert_eq!(vs[0].n, f3(0.0, 0.0, 0.0));
    assert!(missing.tangent && missing.uv && missing.normal);
}

#[test]
fn uv_vertical_component_is_negated() {
    let (vs, missing) = upload(&vec![full(0.0, 0.0, 0.0)]);
    assert_eq!(vs[0].uv, f2(0.25, -0.5));
    assert!(!missing.tangent && !missing.uv && !missing.normal);
}

#[test]
fn overlay_has_normals_then_tangents() {
    let (vs, _) = upload(&triangle());
    let segs = overlay_segments(&vs);
    assert_eq!(segs.len(), 6);
    for i in 0..3 {
        assert_eq!(segs[i].origin, vs[i].pos);
        assert_eq!(segs[i].direction, f3(0.0, 0.0, 1.0));
        assert_eq!(segs[i].color, MarkerColor::Normal);
        assert_eq!(segs[i + 3].origin, vs[i].pos);
        assert_eq!(segs[i + 3].direction, f3(1.0, 0.0, 0.0));
        assert_eq!(segs[i + 3].color, MarkerColor::Tangent);
    }
}

#[test]
fn slot_names() {
    assert_eq!(Slot::Texture.name(), "Texture");
    assert_eq!(Slot::Normals.name(), "Normals");
    assert_eq!(Slot::ViewProjection.name(), "ViewProjection");
    assert_eq!(Slot::Model.name(), "Model");
    assert_eq!(Slot::CameraPos.name(), "CameraPos");
}

#[test]
fn load_resolves_each_slot_by_name() {
    let m = Material::load_for(|s: Slot| match s.name() {
        "Model" => Some(7),
        "Texture" => Some(9),
        _ => None,
    });
    assert_eq!(m.location_of(Slot::Model), Some(7));
    assert_eq!(m.location_of(Slot::Texture), Some(9));
    assert_eq!(m.location_of(Slot::Normals), None);
    assert_eq!(m.location_of(Slot::ViewProjection), None);
    assert_eq!(m.location_of(Slot::CameraPos), None);
}

#[test]
fn bind_issues_every_resolved_slot_in_order() {
    let ops = all_slots().bind(true, true);
    assert_eq!(
        ops,
        vec![
            BindOp::Texture { unit: 0, location: 3 },
            BindOp::Texture { unit: 1, location: 4 },
            BindOp::ViewProjection { location: 0 },
            BindOp::Model { location: 1 },
            BindOp::CameraPos { location: 2 },
        ]
    );
}

#[test]
fn bind_skips_absent_slots_and_textures() {
    let m = Material::load_for(|s: Slot| match s {
        Slot::Normals => Some(5),
        Slot::Model => Some(1),
        _ => None,
    });
    assert_eq!(m.bind(true, false), vec![BindOp::Model { location: 1 }]);
    assert_eq!(
        m.bind(false, true),
        vec![BindOp::Texture { unit: 1, location: 5 }, BindOp::Model { location: 1 }]
    );
    let none = Material::load_for(|_s: Slot| None);
    assert!(none.bind(true, true).is_empty());
}

#[test]
fn new_places_everything_at_initial_transform() {
    let d = dice_of(triangle());
    assert_eq!(d.transform(), (0, 0));
    assert_eq!(d.overlay_pose(), (0, 0));
    let (b, pose) = d.bounding_volume().unwrap();
    assert_eq!(b, Aabb { mins: f3(0.0, 0.0, 0.0), maxs: f3(1.0, 1.0, 0.0) });
    assert_eq!(pose, (0, 0));
    assert_eq!(d.vertices().len(), 3);
    assert_eq!(d.overlay().len(), 6);
    let m = d.missing_attributes();
    assert!(!m.tangent && !m.uv && !m.normal);
}

#[test]
fn new_takes_first_mesh_of_first_material() {
    let meshes = vec![
        MeshData { material_index: Some(1), vertices: vec![full(9.0, 9.0, 9.0)], index_count: 3 },
        MeshData { material_index: Some(0), vertices: triangle(), index_count: 3 },
        MeshData { material_index: Some(0), vertices: vec![], index_count: 0 },
    ];
    let d = Dice::new(all_slots(), 2, &meshes, (1, 1)).unwrap();
    assert_eq!(d.vertices().len(), 3);
    assert_eq!(d.render(false, false).index_count, 3);
}

#[test]
fn new_without_material_takes_mesh_without_material() {
    let meshes = vec![
        MeshData { material_index: Some(0), vertices: triangle(), index_count: 3 },
        MeshData { material_index: None, vertices: vec![full(2.0, 2.0, 2.0)], index_count: 3 },
    ];
    let d = Dice::new(all_slots(), 0, &meshes, (1, 1)).unwrap();
    assert_eq!(d.vertices().len(), 1);
}

#[test]
fn new_fails_without_matching_mesh() {
    let meshes = vec![MeshData { material_index: Some(1), vertices: triangle(), index_count: 3 }];
    assert_eq!(Dice::new(all_slots(), 1, &meshes, (0, 0)).err(), Some(DiceError::NoMesh));
    let empty: Vec<MeshData> = Vec::new();
    assert_eq!(Dice::new(all_slots(), 0, &empty, (0, 0)).err(), Some(DiceError::NoMesh));
}

#[test]
fn set_transform_twice_equals_once() {
    let mut once = dice_of(triangle());
    let mut twice = dice_of(triangle());
    once.set_transform((5, 6));
    twice.set_transform((5, 6));
    twice.set_transform((5, 6));
    assert_eq!(once.transform(), twice.transform());
    assert_eq!(once.overlay_pose(), twice.overlay_pose());
    assert_eq!(once.bounding_volume(), twice.bounding_volume());
    assert_eq!(twice.transform(), (5, 6));
    assert_eq!(twice.overlay_pose(), (5, 6));
    assert_eq!(twice.bounding_volume().unwrap().1, (5, 6));
}

#[test]
fn drag_click_drag_in_one_tick() {
    let mut d = dice_of(triangle());
    let effects = d.update(vec![
        Action::Drag { new_isometry: (1, 0) },
        Action::Click,
        Action::Drag { new_isometry: (2, 0) },
    ]);
    assert_eq!(effects, vec![Effect::Pose((1, 0)), Effect::Select, Effect::Pose((2, 0))]);
    assert_eq!(effects.iter().filter(|e| **e == Effect::Select).count(), 1);
    assert_eq!(d.transform(), (2, 0));
    assert_eq!(d.overlay_pose(), (2, 0));
    assert_eq!(d.bounding_volume().unwrap().1, (2, 0));
}

#[test]
fn every_click_selects_again() {
    let mut d = dice_of(triangle());
    let effects = d.update(vec![Action::Click, Action::Click]);
    assert_eq!(effects, vec![Effect::Select, Effect::Select]);
    assert_eq!(d.transform(), (0, 0));
}

#[test]
fn empty_queue_changes_nothing() {
    let mut d = dice_of(triangle());
    d.set_transform((3, 4));
    let effects = d.update(Vec::new());
    assert!(effects.is_empty());
    assert_eq!(d.transform(), (3, 4));
    assert_eq!(d.overlay_pose(), (3, 4));
    assert_eq!(d.bounding_volume().unwrap().1, (3, 4));
}

#[test]
fn empty_mesh_has_no_volume_and_ignores_actions() {
    let mut d = dice_of(Vec::new());
    assert!(d.bounding_volume().is_none());
    let effects = d.update(vec![Action::Click, Action::Drag { new_isometry: (9, 9) }]);
    assert!(effects.is_empty());
    assert_eq!(d.transform(), (0, 0));
    let call = d.render(true, true);
    assert_eq!(call.model, (0, 0));
    assert_eq!(call.index_count, 6);
    assert_eq!(call.binds.len(), 5);
}

#[test]
fn render_draws_at_current_transform() {
    let mut d = dice_of(triangle());
    d.set_transform((7, 8));
    let call = d.render(false, true);
    assert_eq!(call.model, (7, 8));
    assert_eq!(
        call.binds,
        vec![
            BindOp::Texture { unit: 1, location: 4 },
            BindOp::ViewProjection { location: 0 },
            BindOp::Model { location: 1 },
            BindOp::CameraPos { location: 2 },
        ]
    );
}
