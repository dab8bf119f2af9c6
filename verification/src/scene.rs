//! The scene: a bounded set of objects kept as parallel arrays, exactly as
//! the GPU-side uniform arrays are laid out. Every object has a slot at the
//! same index in each array; the invariant [`Scene::wf`] says all arrays stay
//! the same length, the length never exceeds [`crate::MAX_OBJECTS`], and the
//! selection index stays in range.
//!
//! Real-valued payloads (colors, scalars, vectors, matrices) are opaque
//! 32-bit words here (IEEE-754 bit patterns on the host's side); the scene
//! never computes with them. The transform matrices are derived data the
//! host recomputes from position/rotation/scale whenever those change.

use vstd::prelude::*;
use vstd::string::StringExecFns;

use crate::util::{Reset, UpdateResponse};

verus! {

/// Geometric primitive of a scene object; the shader selects its
/// intersection routine by the wire tag from [`ObjectType::as_u32`].
#[derive(Clone, Copy, Debug, PartialEq, Eq, Structural)]
pub enum ObjectType {
    Sphere,
    Cuboid,
}

impl ObjectType {
    /// The tag this variant is encoded as on the uniform wire.
    pub open spec fn spec_as_u32(self) -> u32 {
        match self {
            ObjectType::Sphere => 0u32,
            ObjectType::Cuboid => 1u32,
        }
    }

    /// Encodes the variant for the uniform wire.
    #[verifier::when_used_as_spec(spec_as_u32)]
    pub fn as_u32(self) -> (r: u32)
        ensures
            r == self.spec_as_u32(),
    {
        match self {
            ObjectType::Sphere => 0u32,
            ObjectType::Cuboid => 1u32,
        }
    }

    /// Name shown for the variant (also the default name of a new object).
    pub open spec fn spec_label(self) -> Seq<char> {
        match self {
            ObjectType::Sphere => "Sphere"@,
            ObjectType::Cuboid => "Cuboid"@,
        }
    }

    /// Returns the name shown for the variant.
    pub fn label(self) -> (r: String)
        ensures
            r@ == self.spec_label(),
    {
        match self {
            ObjectType::Sphere => String::from_str("Sphere"),
            ObjectType::Cuboid => String::from_str("Cuboid"),
        }
    }
}

/// Surface behaviour of an object's material; encoded for the shader by
/// [`MaterialType::as_u32`].
#[derive(Clone, Copy, Debug, PartialEq, Eq, Structural)]
pub enum MaterialType {
    Solid,
    Emissive,
    Transmissive,
}

impl MaterialType {
    /// The tag this variant is encoded as on the uniform wire.
    pub open spec fn spec_as_u32(self) -> u32 {
        match self {
            MaterialType::Solid => 0u32,
            MaterialType::Emissive => 1u32,
            MaterialType::Transmissive => 2u32,
        }
    }

    /// Encodes the variant for the uniform wire.
    #[verifier::when_used_as_spec(spec_as_u32)]
    pub fn as_u32(self) -> (r: u32)
        ensures
            r == self.spec_as_u32(),
    {
        match self {
            MaterialType::Solid => 0u32,
            MaterialType::Emissive => 1u32,
            MaterialType::Transmissive => 2u32,
        }
    }

    /// Name shown for the variant in the material picker.
    pub open spec fn spec_label(self) -> Seq<char> {
        match self {
            MaterialType::Solid => "Solid"@,
            MaterialType::Emissive => "Light source"@,
            MaterialType::Transmissive => "Glass"@,
        }
    }

    /// Returns the name shown for the variant.
    pub fn label(self) -> (r: String)
        ensures
            r@ == self.spec_label(),
    {
        match self {
            MaterialType::Solid => String::from_str("Solid"),
            MaterialType::Emissive => String::from_str("Light source"),
            MaterialType::Transmissive => String::from_str("Glass"),
        }
    }
}

/// A 3-vector payload: three opaque 32-bit words owned by the host.
#[derive(Clone, Copy, Debug, PartialEq, Eq, Structural)]
pub struct Vec3Bits {
    pub x: u32,
    pub y: u32,
    pub z: u32,
}

impl Vec3Bits {
    /// The vector whose components all carry the same word.
    pub open spec fn spec_splat(w: u32) -> Vec3Bits {
        Vec3Bits { x: w, y: w, z: w }
    }

    /// Builds the vector whose components all carry the same word.
    #[verifier::when_used_as_spec(spec_splat)]
    pub fn splat(w: u32) -> (r: Vec3Bits)
        ensures
            r == Self::spec_splat(w),
    {
        Vec3Bits { x: w, y: w, z: w }
    }
}

/// A 4x4 matrix payload: sixteen opaque 32-bit words in column-major order,
/// owned by the host.
#[derive(Clone, Copy, Debug, PartialEq, Eq)]
pub struct Mat4Bits {
    pub m: [u32; 16],
}

/// Bit pattern of real one on the host's side (IEEE-754 single precision).
pub const ONE_BITS: u32 = 0x3F80_0000;

impl Mat4Bits {
    /// The identity matrix payload: ones on the diagonal, zeroes elsewhere.
    pub open spec fn spec_identity() -> Mat4Bits {
        Mat4Bits {
            m: [
                ONE_BITS, 0u32, 0u32, 0u32,
                0u32, ONE_BITS, 0u32, 0u32,
                0u32, 0u32, ONE_BITS, 0u32,
                0u32, 0u32, 0u32, ONE_BITS,
            ],
        }
    }

    /// Builds the identity matrix payload.
    #[verifier::when_used_as_spec(spec_identity)]
    pub fn identity() -> (r: Mat4Bits)
        ensures
            r == Self::spec_identity(),
    {
        Mat4Bits {
            m: [
                ONE_BITS, 0u32, 0u32, 0u32,
                0u32, ONE_BITS, 0u32, 0u32,
                0u32, 0u32, ONE_BITS, 0u32,
                0u32, 0u32, 0u32, ONE_BITS,
            ],
        }
    }
}

/// What the scene window reported this frame: whether a text field holds
/// keyboard focus, and whether anything about the scene was edited.
#[derive(Clone, Copy, Debug, PartialEq, Eq, Structural)]
pub struct SceneResponse {
    pub focused: bool,
    pub changed: bool,
}

impl Default for SceneResponse {
    /// The initial response claims a change so the first frame uploads the
    /// scene block.
    fn default() -> (r: Self)
        ensures
            !r.focused,
            r.changed,
    {
        SceneResponse { focused: false, changed: true }
    }
}

impl Reset for SceneResponse {
    open spec fn reset_spec() -> Self {
        SceneResponse { focused: false, changed: false }
    }

    fn reset_state() -> (r: Self) {
        SceneResponse { focused: false, changed: false }
    }

    fn reset(&mut self) {
        *self = SceneResponse { focused: false, changed: false };
    }
}

/// Bit pattern of the default material color channel (real 0.9).
pub const DEFAULT_COLOR_BITS: u32 = 0x3F66_6666;

/// Bit pattern of the default material roughness (real 0.5).
pub const DEFAULT_ROUGHNESS_BITS: u32 = 0x3F00_0000;

/// Bit pattern of the default index of refraction of glass (real 1.333).
pub const DEFAULT_IOR_BITS: u32 = 0x3FAA_9FBE;

/// Bit pattern of the default transmissive opacity (real 0.1).
pub const DEFAULT_OPACITY_BITS: u32 = 0x3DCC_CCCD;

/// The objects of the world, kept as parallel arrays so the uniform upload
/// can hand each array to the GPU as one slice. Index `i` of every array
/// describes object `i`.
#[derive(Clone)]
pub struct Scene {
    /// Index of the object the editor currently acts on.
    pub selected: usize,
    pub name: Vec<String>,
    pub ty: Vec<ObjectType>,
    pub position: Vec<Vec3Bits>,
    pub rotation: Vec<Vec3Bits>,
    pub scale: Vec<Vec3Bits>,
    pub mat_ty: Vec<MaterialType>,
    pub mat_color: Vec<Vec3Bits>,
    pub mat_roughness: Vec<u32>,
    pub mat_emissive_strength: Vec<u32>,
    pub mat_transmissive_opacity: Vec<u32>,
    pub mat_transmissive_ior: Vec<u32>,
    /// Cached object-to-world transform, derived by the host from
    /// position/rotation/scale.
    pub transform: Vec<Mat4Bits>,
    /// Cached world-to-object transform, derived by the host.
    pub inv_transform: Vec<Mat4Bits>,
    /// Cached normal transform (rotation with reciprocal scale), derived by
    /// the host.
    pub normal_transform: Vec<Mat4Bits>,
    pub response: SceneResponse,
}

impl Scene {
    /// Number of objects in the scene.
    pub open spec fn spec_len(self) -> nat {
        self.name@.len()
    }

    /// All parallel arrays agree in length, the length is bounded, and the
    /// selection is a valid index (zero while the scene is empty).
    pub open spec fn wf(self) -> bool {
        &&& self.ty@.len() == self.name@.len()
        &&& self.position@.len() == self.name@.len()
        &&& self.rotation@.len() == self.name@.len()
        &&& self.scale@.len() == self.name@.len()
        &&& self.mat_ty@.len() == self.name@.len()
        &&& self.mat_color@.len() == self.name@.len()
        &&& self.mat_roughness@.len() == self.name@.len()
        &&& self.mat_emissive_strength@.len() == self.name@.len()
        &&& self.mat_transmissive_opacity@.len() == self.name@.len()
        &&& self.mat_transmissive_ior@.len() == self.name@.len()
        &&& self.transform@.len() == self.name@.len()
        &&& self.inv_transform@.len() == self.name@.len()
        &&& self.normal_transform@.len() == self.name@.len()
        &&& self.name@.len() <= crate::MAX_OBJECTS
        &&& self.name@.len() == 0 ==> self.selected == 0
        &&& self.name@.len() > 0 ==> self.selected < self.name@.len()
    }

    /// Builds the empty scene.
    pub fn new() -> (r: Scene)
        ensures
            r.wf(),
            r.spec_len() == 0,
            r.selected == 0,
            !r.response.focused,
            r.response.changed,
    {
        Scene {
            selected: 0,
            name: Vec::new(),
            ty: Vec::new(),
            position: Vec::new(),
            rotation: Vec::new(),
            scale: Vec::new(),
            mat_ty: Vec::new(),
            mat_color: Vec::new(),
            mat_roughness: Vec::new(),
            mat_emissive_strength: Vec::new(),
            mat_transmissive_opacity: Vec::new(),
            mat_transmissive_ior: Vec::new(),
            transform: Vec::new(),
            inv_transform: Vec::new(),
            normal_transform: Vec::new(),
            response: SceneResponse { focused: false, changed: true },
        }
    }

    /// Returns the number of objects in the scene.
    pub fn len(&self) -> (r: usize)
        ensures
            r == self.spec_len(),
    {
        self.name.len()
    }

    /// Renames the selected object. An empty scene is left untouched.
    pub fn rename_selected(&mut self, name: String)
        requires
            old(self).wf(),
        ensures
            final(self).wf(),
            old(self).spec_len() == 0 ==> *final(self) == *old(self),
            old(self).spec_len() > 0 ==> {
                &&& final(self).name@ == old(self).name@.update(old(self).selected as int, name)
                &&& final(self).ty == old(self).ty
                &&& final(self).position == old(self).position
                &&& final(self).rotation == old(self).rotation
                &&& final(self).scale == old(self).scale
                &&& final(self).mat_ty == old(self).mat_ty
                &&& final(self).mat_color == old(self).mat_color
                &&& final(self).mat_roughness == old(self).mat_roughness
                &&& final(self).mat_emissive_strength == old(self).mat_emissive_strength
                &&& final(self).mat_transmissive_opacity == old(self).mat_transmissive_opacity
                &&& final(self).mat_transmissive_ior == old(self).mat_transmissive_ior
                &&& final(self).transform == old(self).transform
                &&& final(self).inv_transform == old(self).inv_transform
                &&& final(self).normal_transform == old(self).normal_transform
                &&& final(self).selected == old(self).selected
                &&& final(self).response == old(self).response
            },
    {
        if self.name.len() == 0 {
            return ;
        }
        let i = self.selected;
        self.name[i] = name;
    }

    /// Appends a fresh sphere with the default material and identity
    /// transforms, and selects it. A full scene is left untouched.
    pub fn new_object(&mut self)
        requires
            old(self).wf(),
        ensures
            final(self).wf(),
            old(self).spec_len() >= crate::MAX_OBJECTS ==> *final(self) == *old(self),
            old(self).spec_len() < crate::MAX_OBJECTS ==> {
                &&& final(self).spec_len() == old(self).spec_len() + 1
                &&& final(self).name@.len() == old(self).name@.len() + 1
                &&& forall|i: int|
                    0 <= i < old(self).name@.len() ==> final(self).name@[i] == old(self).name@[i]
                &&& final(self).name@.last()@ == ObjectType::Sphere.spec_label()
                &&& final(self).ty@ == old(self).ty@.push(ObjectType::Sphere)
                &&& final(self).position@ == old(self).position@.push(Vec3Bits::splat(0u32))
                &&& final(self).rotation@ == old(self).rotation@.push(Vec3Bits::splat(0u32))
                &&& final(self).scale@ == old(self).scale@.push(Vec3Bits::splat(ONE_BITS))
                &&& final(self).mat_ty@ == old(self).mat_ty@.push(MaterialType::Solid)
                &&& final(self).mat_color@ == old(self).mat_color@.push(
                    Vec3Bits::splat(DEFAULT_COLOR_BITS),
                )
                &&& final(self).mat_roughness@ == old(self).mat_roughness@.push(
                    DEFAULT_ROUGHNESS_BITS,
                )
                &&& final(self).mat_emissive_strength@ == old(
                    self,
                ).mat_emissive_strength@.push(ONE_BITS)
                &&& final(self).mat_transmissive_opacity@ == old(
                    self,
                ).mat_transmissive_opacity@.push(DEFAULT_OPACITY_BITS)
                &&& final(self).mat_transmissive_ior@ == old(self).mat_transmissive_ior@.push(
                    DEFAULT_IOR_BITS,
                )
                &&& final(self).transform@ == old(self).transform@.push(Mat4Bits::identity())
                &&& final(self).inv_transform@ == old(self).inv_transform@.push(
                    Mat4Bits::identity(),
                )
                &&& final(self).normal_transform@ == old(self).normal_transform@.push(
                    Mat4Bits::identity(),
                )
                &&& final(self).selected == old(self).spec_len()
                &&& final(self).response == old(self).response
            },
    {
        if self.name.len() >= crate::MAX_OBJECTS {
            return ;
        }
        let ty = ObjectType::Sphere;
        self.name.push(ty.label());
        self.ty.push(ty);
        self.position.push(Vec3Bits::splat(0u32));
        self.rotation.push(Vec3Bits::splat(0u32));
        self.scale.push(Vec3Bits::splat(ONE_BITS));
        self.mat_ty.push(MaterialType::Solid);
        self.mat_color.push(Vec3Bits::splat(DEFAULT_COLOR_BITS));
        self.mat_roughness.push(DEFAULT_ROUGHNESS_BITS);
        self.mat_emissive_strength.push(ONE_BITS);
        self.mat_transmissive_ior.push(DEFAULT_IOR_BITS);
        self.mat_transmissive_opacity.push(DEFAULT_OPACITY_BITS);
        self.transform.push(Mat4Bits::identity());
        self.inv_transform.push(Mat4Bits::identity());
        self.normal_transform.push(Mat4Bits::identity());
        self.selected = self.name.len() - 1;
    }
}

impl Scene {
    /// Appends a copy of the selected object, with " copy" appended to its
    /// name, and selects the copy. An empty or full scene is left untouched.
    pub fn duplicate_object(&mut self)
        requires
            old(self).wf(),
        ensures
            final(self).wf(),
            !(0 < old(self).spec_len() < crate::MAX_OBJECTS) ==> *final(self) == *old(self),
            0 < old(self).spec_len() < crate::MAX_OBJECTS ==> {
                let i = old(self).selected as int;
                &&& final(self).spec_len() == old(self).spec_len() + 1
                &&& final(self).name@.len() == old(self).name@.len() + 1
                &&& forall|j: int|
                    0 <= j < old(self).name@.len() ==> final(self).name@[j] == old(self).name@[j]
                &&& final(self).name@.last()@ == old(self).name@[i]@ + " copy"@
                &&& final(self).ty@ == old(self).ty@.push(old(self).ty@[i])
                &&& final(self).position@ == old(self).position@.push(old(self).position@[i])
                &&& final(self).rotation@ == old(self).rotation@.push(old(self).rotation@[i])
                &&& final(self).scale@ == old(self).scale@.push(old(self).scale@[i])
                &&& final(self).mat_ty@ == old(self).mat_ty@.push(old(self).mat_ty@[i])
                &&& final(self).mat_color@ == old(self).mat_color@.push(old(self).mat_color@[i])
                &&& final(self).mat_roughness@ == old(self).mat_roughness@.push(
                    old(self).mat_roughness@[i],
                )
                &&& final(self).mat_emissive_strength@ == old(self).mat_emissive_strength@.push(
                    old(self).mat_emissive_strength@[i],
                )
                &&& final(self).mat_transmissive_opacity@ == old(
                    self,
                ).mat_transmissive_opacity@.push(old(self).mat_transmissive_opacity@[i])
                &&& final(self).mat_transmissive_ior@ == old(self).mat_transmissive_ior@.push(
                    old(self).mat_transmissive_ior@[i],
                )
                &&& final(self).transform@ == old(self).transform@.push(old(self).transform@[i])
                &&& final(self).inv_transform@ == old(self).inv_transform@.push(
                    old(self).inv_transform@[i],
                )
                &&& final(self).normal_transform@ == old(self).normal_transform@.push(
                    old(self).normal_transform@[i],
                )
                &&& final(self).selected == old(self).spec_len()
                &&& final(self).response == old(self).response
            },
    {
        if self.name.len() < 1 || self.name.len() >= crate::MAX_OBJECTS {
            return ;
        }
        let i = self.selected;
        let mut name = self.name[i].clone();
        name.append(" copy");
        self.name.push(name);
        self.ty.push(self.ty[i]);
        self.position.push(self.position[i]);
        self.rotation.push(self.rotation[i]);
        self.scale.push(self.scale[i]);
        self.mat_ty.push(self.mat_ty[i]);
        self.mat_color.push(self.mat_color[i]);
        self.mat_roughness.push(self.mat_roughness[i]);
        self.mat_emissive_strength.push(self.mat_emissive_strength[i]);
        self.mat_transmissive_ior.push(self.mat_transmissive_ior[i]);
        self.mat_transmissive_opacity.push(self.mat_transmissive_opacity[i]);
        self.transform.push(self.transform[i]);
        self.inv_transform.push(self.inv_transform[i]);
        self.normal_transform.push(self.normal_transform[i]);
        self.selected = self.name.len() - 1;
    }

    /// Removes the selected object from every array and moves the selection
    /// to the previous slot. An empty scene is left untouched.
    pub fn delete_object(&mut self)
        requires
            old(self).wf(),
        ensures
            final(self).wf(),
            old(self).spec_len() == 0 ==> *final(self) == *old(self),
            old(self).spec_len() > 0 ==> {
                let i = old(self).selected as int;
                &&& final(self).spec_len() == old(self).spec_len() - 1
                &&& final(self).name@ == old(self).name@.remove(i)
                &&& final(self).ty@ == old(self).ty@.remove(i)
                &&& final(self).position@ == old(self).position@.remove(i)
                &&& final(self).rotation@ == old(self).rotation@.remove(i)
                &&& final(self).scale@ == old(self).scale@.remove(i)
                &&& final(self).mat_ty@ == old(self).mat_ty@.remove(i)
                &&& final(self).mat_color@ == old(self).mat_color@.remove(i)
                &&& final(self).mat_roughness@ == old(self).mat_roughness@.remove(i)
                &&& final(self).mat_emissive_strength@ == old(self).mat_emissive_strength@.remove(
                    i,
                )
                &&& final(self).mat_transmissive_opacity@ == old(
                    self,
                ).mat_transmissive_opacity@.remove(i)
                &&& final(self).mat_transmissive_ior@ == old(self).mat_transmissive_ior@.remove(i)
                &&& final(self).transform@ == old(self).transform@.remove(i)
                &&& final(self).inv_transform@ == old(self).inv_transform@.remove(i)
                &&& final(self).normal_transform@ == old(self).normal_transform@.remove(i)
                &&& final(self).selected == if old(self).selected > 0 {
                    (old(self).selected - 1) as usize
                } else {
                    0usize
                }
                &&& final(self).response == old(self).response
            },
    {
        if self.name.len() < 1 {
            return ;
        }
        let i = self.selected;
        self.name.remove(i);
        self.ty.remove(i);
        self.position.remove(i);
        self.rotation.remove(i);
        self.scale.remove(i);
        self.mat_ty.remove(i);
        self.mat_color.remove(i);
        self.mat_roughness.remove(i);
        self.mat_emissive_strength.remove(i);
        self.mat_transmissive_ior.remove(i);
        self.mat_transmissive_opacity.remove(i);
        self.transform.remove(i);
        self.inv_transform.remove(i);
        self.normal_transform.remove(i);
        self.selected = if i > 0 {
            i - 1
        } else {
            0
        };
    }
}

/// Bit pattern of the default scene's sphere roughness (real 0.6).
pub const ROUGH_SPHERE_ROUGHNESS_BITS: u32 = 0x3F19_999A;

/// Bit pattern of the default scene's floor color channel (real 0.1).
pub const FLOOR_COLOR_BITS: u32 = 0x3DCC_CCCD;

/// Bit pattern of the default scene's floor height (real -1.001).
pub const FLOOR_Y_BITS: u32 = 0xBF80_20C5;

/// Bit pattern of the default scene's floor extent (real 1000.0).
pub const FLOOR_XZ_SCALE_BITS: u32 = 0x447A_0000;

/// Bit pattern of the default scene's floor thickness (real 0.001).
pub const FLOOR_Y_SCALE_BITS: u32 = 0x3A83_126F;

impl Scene {
    /// Adds the starting content: a rough sphere and a wide, flat, dark
    /// floor box below it, with the floor selected. The cached transforms of
    /// the two objects are left at identity; the host recomputes them from
    /// position/rotation/scale before the first upload.
    pub fn with_default_scene(self) -> (r: Scene)
        requires
            self.wf(),
        ensures
            r.wf(),
            self.spec_len() + 2 <= crate::MAX_OBJECTS ==> {
                let n = self.spec_len() as int;
                &&& r.spec_len() == n + 2
                // every slot below the two new ones is untouched
                &&& forall|j: int| 0 <= j < n ==> r.name@[j] == self.name@[j]
                &&& forall|j: int| 0 <= j < n ==> r.ty@[j] == self.ty@[j]
                &&& forall|j: int| 0 <= j < n ==> r.position@[j] == self.position@[j]
                &&& forall|j: int| 0 <= j < n ==> r.rotation@[j] == self.rotation@[j]
                &&& forall|j: int| 0 <= j < n ==> r.scale@[j] == self.scale@[j]
                &&& forall|j: int| 0 <= j < n ==> r.mat_ty@[j] == self.mat_ty@[j]
                &&& forall|j: int| 0 <= j < n ==> r.mat_color@[j] == self.mat_color@[j]
                &&& forall|j: int| 0 <= j < n ==> r.mat_roughness@[j] == self.mat_roughness@[j]
                &&& forall|j: int|
                    0 <= j < n ==> r.mat_emissive_strength@[j] == self.mat_emissive_strength@[j]
                &&& forall|j: int|
                    0 <= j < n ==> r.mat_transmissive_opacity@[j]
                        == self.mat_transmissive_opacity@[j]
                &&& forall|j: int|
                    0 <= j < n ==> r.mat_transmissive_ior@[j] == self.mat_transmissive_ior@[j]
                &&& forall|j: int| 0 <= j < n ==> r.transform@[j] == self.transform@[j]
                &&& forall|j: int| 0 <= j < n ==> r.inv_transform@[j] == self.inv_transform@[j]
                &&& forall|j: int|
                    0 <= j < n ==> r.normal_transform@[j] == self.normal_transform@[j]
                // slot n: a fresh sphere, roughened
                &&& r.name@[n]@ == ObjectType::Sphere.spec_label()
                &&& r.ty@[n] == ObjectType::Sphere
                &&& r.position@[n] == Vec3Bits::splat(0u32)
                &&& r.rotation@[n] == Vec3Bits::splat(0u32)
                &&& r.scale@[n] == Vec3Bits::splat(ONE_BITS)
                &&& r.mat_ty@[n] == MaterialType::Solid
                &&& r.mat_color@[n] == Vec3Bits::splat(DEFAULT_COLOR_BITS)
                &&& r.mat_roughness@[n] == ROUGH_SPHERE_ROUGHNESS_BITS
                &&& r.mat_emissive_strength@[n] == ONE_BITS
                &&& r.mat_transmissive_opacity@[n] == DEFAULT_OPACITY_BITS
                &&& r.mat_transmissive_ior@[n] == DEFAULT_IOR_BITS
                &&& r.transform@[n] == Mat4Bits::identity()
                &&& r.inv_transform@[n] == Mat4Bits::identity()
                &&& r.normal_transform@[n] == Mat4Bits::identity()
                // slot n + 1: the dark matte floor
                &&& r.name@[n + 1]@ == "Floor"@
                &&& r.ty@[n + 1] == ObjectType::Cuboid
                &&& r.position@[n + 1] == (Vec3Bits { x: 0u32, y: FLOOR_Y_BITS, z: 0u32 })
                &&& r.rotation@[n + 1] == Vec3Bits::splat(0u32)
                &&& r.scale@[n + 1] == (Vec3Bits {
                    x: FLOOR_XZ_SCALE_BITS,
                    y: FLOOR_Y_SCALE_BITS,
                    z: FLOOR_XZ_SCALE_BITS,
                })
                &&& r.mat_ty@[n + 1] == MaterialType::Solid
                &&& r.mat_color@[n + 1] == Vec3Bits::splat(FLOOR_COLOR_BITS)
                &&& r.mat_roughness@[n + 1] == ONE_BITS
                &&& r.mat_emissive_strength@[n + 1] == ONE_BITS
                &&& r.mat_transmissive_opacity@[n + 1] == DEFAULT_OPACITY_BITS
                &&& r.mat_transmissive_ior@[n + 1] == DEFAULT_IOR_BITS
                &&& r.transform@[n + 1] == Mat4Bits::identity()
                &&& r.inv_transform@[n + 1] == Mat4Bits::identity()
                &&& r.normal_transform@[n + 1] == Mat4Bits::identity()
                &&& r.selected == n + 1
                &&& r.response == self.response
            },
    {
        let mut this = self;
        this.new_object();
        let i = this.selected;
        this.mat_roughness[i] = ROUGH_SPHERE_ROUGHNESS_BITS;

        this.new_object();
        let i = this.selected;
        this.name[i] = String::from_str("Floor");
        this.ty[i] = ObjectType::Cuboid;
        this.position[i] = Vec3Bits { x: 0u32, y: FLOOR_Y_BITS, z: 0u32 };
        this.rotation[i] = Vec3Bits::splat(0u32);
        this.scale[i] = Vec3Bits {
            x: FLOOR_XZ_SCALE_BITS,
            y: FLOOR_Y_SCALE_BITS,
            z: FLOOR_XZ_SCALE_BITS,
        };
        this.mat_color[i] = Vec3Bits::splat(FLOOR_COLOR_BITS);
        this.mat_roughness[i] = ONE_BITS;
        this
    }

    /// The wire tags of the object types, padded to the fixed slot count.
    pub fn object_type_words(&self) -> (r: Vec<u32>)
        requires
            self.wf(),
        ensures
            r@.len() == crate::MAX_OBJECTS,
            forall|i: int| 0 <= i < self.spec_len() ==> r@[i] == self.ty@[i].spec_as_u32(),
            forall|i: int| self.spec_len() <= i < crate::MAX_OBJECTS ==> r@[i] == 0u32,
    {
        let mut words: Vec<u32> = Vec::new();
        let mut i: usize = 0;
        while i < self.ty.len()
            invariant
                self.wf(),
                i <= self.ty@.len(),
                words@.len() == i,
                forall|j: int| 0 <= j < i ==> words@[j] == self.ty@[j].spec_as_u32(),
            decreases self.ty@.len() - i,
        {
            words.push(self.ty[i].as_u32());
            i = i + 1;
        }
        crate::util::fill_50(&words)
    }

    /// The wire tags of the material types, padded to the fixed slot count.
    pub fn material_type_words(&self) -> (r: Vec<u32>)
        requires
            self.wf(),
        ensures
            r@.len() == crate::MAX_OBJECTS,
            forall|i: int| 0 <= i < self.spec_len() ==> r@[i] == self.mat_ty@[i].spec_as_u32(),
            forall|i: int| self.spec_len() <= i < crate::MAX_OBJECTS ==> r@[i] == 0u32,
    {
        let mut words: Vec<u32> = Vec::new();
        let mut i: usize = 0;
        while i < self.mat_ty.len()
            invariant
                self.wf(),
                i <= self.mat_ty@.len(),
                words@.len() == i,
                forall|j: int| 0 <= j < i ==> words@[j] == self.mat_ty@[j].spec_as_u32(),
            decreases self.mat_ty@.len() - i,
        {
            words.push(self.mat_ty[i].as_u32());
            i = i + 1;
        }
        crate::util::fill_50(&words)
    }
}

impl UpdateResponse for Scene {
    open spec fn focused_flag(self) -> bool {
        self.response.focused
    }

    open spec fn changed_flag(self) -> bool {
        self.response.changed
    }

    fn set_focused(&mut self, focused: bool)
        ensures
            *final(self) == (Scene {
                response: SceneResponse {
                    focused: old(self).response.focused || focused,
                    ..old(self).response
                },
                ..*old(self)
            }),
    {
        self.response.focused = self.response.focused || focused;
    }

    fn set_changed(&mut self, changed: bool)
        ensures
            *final(self) == (Scene {
                response: SceneResponse {
                    changed: old(self).response.changed || changed,
                    ..old(self).response
                },
                ..*old(self)
            }),
    {
        self.response.changed = self.response.changed || changed;
    }
}

} // verus!
