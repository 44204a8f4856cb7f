use vstd::prelude::*;

verus! {

/// The named uniform slots a material resolves in its shader program.
#[derive(Clone, Copy, Debug, PartialEq, Eq, Structural)]
pub enum Slot {
    Texture,
    Normals,
    ViewProjection,
    Model,
    CameraPos,
}

/// The uniform name of each slot.
pub open spec fn slot_name(s: Slot) -> Seq<char> {
    match s {
        Slot::Texture => seq!['T', 'e', 'x', 't', 'u', 'r', 'e'],
        Slot::Normals => seq!['N', 'o', 'r', 'm', 'a', 'l', 's'],
        Slot::ViewProjection => seq![
            'V', 'i', 'e', 'w', 'P', 'r', 'o', 'j', 'e', 'c', 't', 'i', 'o', 'n'
        ],
        Slot::Model => seq!['M', 'o', 'd', 'e', 'l'],
        Slot::CameraPos => seq!['C', 'a', 'm', 'e', 'r', 'a', 'P', 'o', 's'],
    }
}

impl Slot {
    /// The uniform name under which this slot is looked up.
    pub fn name(&self) -> (r: &'static str)
        ensures
            r@ == slot_name(*self),
    {
        match self {
            Slot::Texture => {
                proof {
                    reveal_strlit("Texture");
                }
                "Texture"
            },
            Slot::Normals => {
                proof {
                    reveal_strlit("Normals");
                }
                "Normals"
            },
            Slot::ViewProjection => {
                proof {
                    reveal_strlit("ViewProjection");
                }
                "ViewProjection"
            },
            Slot::Model => {
                proof {
                    reveal_strlit("Model");
                }
                "Model"
            },
            Slot::CameraPos => {
                proof {
                    reveal_strlit("CameraPos");
                }
                "CameraPos"
            },
        }
    }
}

/// One GPU operation of a material binding, in the order it is issued.
#[derive(Clone, Copy, Debug, PartialEq, Eq, Structural)]
pub enum BindOp {
    /// Bind a texture at texture unit `unit` and set the sampler uniform at
    /// `location` to that unit.
    Texture { unit: u32, location: i32 },
    /// Upload the view-projection matrix at `location`.
    ViewProjection { location: i32 },
    /// Upload the model matrix at `location`.
    Model { location: i32 },
    /// Upload the camera position at `location`.
    CameraPos { location: i32 },
}

/// Texture unit of the diffuse texture.
pub const DIFFUSE_UNIT: u32 = 0;

/// Texture unit of the normal map.
pub const NORMALS_UNIT: u32 = 1;

/// Uniform locations of a shader program, each resolved once; a slot that the
/// program lacks is `None`.
#[derive(Clone, Copy, Debug)]
pub struct Material {
    texture_location: Option<i32>,
    texture_normals_location: Option<i32>,
    program_viewprojection_location: Option<i32>,
    program_model_location: Option<i32>,
    camera_pos_location: Option<i32>,
}

/// The operations of a bound slot: one if it resolved (and, for a texture
/// slot, its texture is there), none otherwise.
pub open spec fn slot_ops(loc: Option<i32>, present: bool, op: spec_fn(i32) -> BindOp) -> Seq<BindOp> {
    match loc {
        Some(l) => if present {
            seq![op(l)]
        } else {
            seq![]
        },
        None => seq![],
    }
}

impl Material {
    /// The location that `slot` resolved to.
    pub closed spec fn location(self, slot: Slot) -> Option<i32> {
        match slot {
            Slot::Texture => self.texture_location,
            Slot::Normals => self.texture_normals_location,
            Slot::ViewProjection => self.program_viewprojection_location,
            Slot::Model => self.program_model_location,
            Slot::CameraPos => self.camera_pos_location,
        }
    }

    /// What a binding issues, in order: diffuse texture, normal map,
    /// view-projection, model, camera position; each only where its slot
    /// resolved, and a texture slot only where its texture is there.
    pub open spec fn bind_plan(self, has_texture: bool, has_normals: bool) -> Seq<BindOp> {
        slot_ops(
            self.location(Slot::Texture),
            has_texture,
            |l: i32| BindOp::Texture { unit: DIFFUSE_UNIT, location: l },
        ) + slot_ops(
            self.location(Slot::Normals),
            has_normals,
            |l: i32| BindOp::Texture { unit: NORMALS_UNIT, location: l },
        ) + slot_ops(
            self.location(Slot::ViewProjection),
            true,
            |l: i32| BindOp::ViewProjection { location: l },
        ) + slot_ops(self.location(Slot::Model), true, |l: i32| BindOp::Model { location: l })
            + slot_ops(
            self.location(Slot::CameraPos),
            true,
            |l: i32| BindOp::CameraPos { location: l },
        )
    }

    /// Resolves every slot once through `lookup`, which gives the location of
    /// a uniform in the program, or `None` where the program lacks it.
    pub fn load_for<F: Fn(Slot) -> Option<i32>>(lookup: F) -> (r: Material)
        requires
            forall|s: Slot| lookup.requires((s,)),
        ensures
            forall|s: Slot| lookup.ensures((s,), #[trigger] r.location(s)),
    {
        let m = Material {
            texture_location: lookup(Slot::Texture),
            texture_normals_location: lookup(Slot::Normals),
            program_viewprojection_location: lookup(Slot::ViewProjection),
            program_model_location: lookup(Slot::Model),
            camera_pos_location: lookup(Slot::CameraPos),
        };
        assert forall|s: Slot| lookup.ensures((s,), #[trigger] m.location(s)) by {
            match s {
                Slot::Texture => {},
                Slot::Normals => {},
                Slot::ViewProjection => {},
                Slot::Model => {},
                Slot::CameraPos => {},
            }
        }
        m
    }

    /// The location that `slot` resolved to.
    pub fn location_of(&self, slot: Slot) -> (r: Option<i32>)
        ensures
            r == self.location(slot),
    {
        match slot {
            Slot::Texture => self.texture_location,
            Slot::Normals => self.texture_normals_location,
            Slot::ViewProjection => self.program_viewprojection_location,
            Slot::Model => self.program_model_location,
            Slot::CameraPos => self.camera_pos_location,
        }
    }

    /// The operations that bind this material, given which of the two
    /// textures are loaded. Slots that did not resolve are skipped.
    pub fn bind(&self, has_texture: bool, has_normals: bool) -> (r: Vec<BindOp>)
        ensures
            r@ == self.bind_plan(has_texture, has_normals),
    {
        let mut ops: Vec<BindOp> = Vec::new();
        if let (Some(loc), true) = (self.texture_location, has_texture) {
            ops.push(BindOp::Texture { unit: DIFFUSE_UNIT, location: loc });
        }
        if let (Some(loc), true) = (self.texture_normals_location, has_normals) {
            ops.push(BindOp::Texture { unit: NORMALS_UNIT, location: loc });
        }
        if let Some(loc) = self.program_viewprojection_location {
            ops.push(BindOp::ViewProjection { location: loc });
        }
        if let Some(loc) = self.program_model_location {
            ops.push(BindOp::Model { location: loc });
        }
        if let Some(loc) = self.camera_pos_location {
            ops.push(BindOp::CameraPos { location: loc });
        }
        assert(ops@ =~= self.bind_plan(has_texture, has_normals));
        ops
    }
}

} // verus!
