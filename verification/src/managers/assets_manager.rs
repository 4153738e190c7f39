//! The cache of loaded assets and of the shader programs that draw them.
//!
//! This module parses each asset's glTF data, decides what is loaded and
//! with which shader, keeps it, and hands out copies; the GPU work is the
//! application's, handed in through [`AssetLoader`].
use vstd::prelude::*;
use crate::managers::asset_data::{gltf_document, read_gltf, AssetData};
use crate::managers::asset_table::{lemma_table_absent, lemma_table_at, table_get};

verus! {

#[verifier::external_type_specification]
#[verifier::external_body]
pub struct ExNativeProgram(glow::NativeProgram);

/// The assets the game ships with.
#[derive(Debug, Clone, Copy, PartialEq, Eq, Structural, Hash)]
pub enum Assets {
    TestingDoll,
    Chair,
    BlockoutPlatform,
}

/// The shader programs the asset manager creates.
#[derive(Debug, Clone, Copy, PartialEq, Eq, Structural)]
pub enum ShaderProgram {
    Static,
    Animated,
    StaticOutline,
    AnimatedOutline,
    Box,
    Sphere,
    Capsule,
    Cylinder,
}

/// The GPU work of loading: compiling shader programs and turning an
/// asset's parsed glTF document and data into a static object `S` or an
/// animated object `A`.
/// The application implements it over its GL context.
pub trait AssetLoader<S, A> {
    fn create_shader_program(&self, program: ShaderProgram) -> glow::NativeProgram;

    fn load_static_gltf(
        &self,
        asset_name: Assets,
        gltf: &gltf::Gltf,
        data: &AssetData,
        shader_program: glow::NativeProgram,
    ) -> S;

    fn load_animated_gltf(
        &self,
        asset_name: Assets,
        gltf: &gltf::Gltf,
        data: &AssetData,
        shader_program: glow::NativeProgram,
    ) -> A;
}

/// Why loading the assets stopped.
#[derive(Debug, Clone, Copy, PartialEq, Eq, Structural)]
pub enum AssetError {
    /// The glTF data of this asset is not a valid glTF document.
    GltfParse(Assets),
}

/// The first of the doll, the chair and the platform, in that order, whose
/// glTF data does not parse, if any.
pub open spec fn first_parse_failure(doll: Seq<u8>, chair: Seq<u8>, platform: Seq<u8>) -> Option<Assets> {
    if gltf_document(doll) is None {
        Some(Assets::TestingDoll)
    } else if gltf_document(chair) is None {
        Some(Assets::Chair)
    } else if gltf_document(platform) is None {
        Some(Assets::BlockoutPlatform)
    } else {
        None
    }
}

/// The position of the first entry named `name`, if any.
fn find_asset<V>(entries: &Vec<(Assets, V)>, name: Assets) -> (res: Option<usize>)
    ensures
        match res {
            Some(i) => i < entries@.len() && entries@[i as int].0 == name && table_get(
                entries@,
                name,
            ) == Some(entries@[i as int].1) && forall|j: int|
                0 <= j < i ==> (#[trigger] entries@[j]).0 != name,
            None => table_get(entries@, name) is None && forall|j: int|
                0 <= j < entries@.len() ==> (#[trigger] entries@[j]).0 != name,
        },
{
    let n = entries.len();
    for i in 0..n
        invariant
            n == entries@.len(),
            forall|j: int| 0 <= j < i ==> (#[trigger] entries@[j]).0 != name,
    {
        if entries[i].0 == name {
            proof {
                lemma_table_at(entries@, name, i as int);
            }
            return Some(i);
        }
    }
    proof {
        lemma_table_absent(entries@, name);
    }
    None
}

/// The asset manager: the loaded static objects `S` and animated objects
/// `A` by asset, the shader programs, and whether loading has been done.
pub struct AssetsManager<S, A> {
    static_assets: Vec<(Assets, S)>,
    animated_assets: Vec<(Assets, A)>,
    static_shader_program: Option<glow::NativeProgram>,
    animated_shader_program: Option<glow::NativeProgram>,
    static_outline_shader_program: Option<glow::NativeProgram>,
    animated_outline_shader_program: Option<glow::NativeProgram>,
    box_shader_program: Option<glow::NativeProgram>,
    sphere_shader_program: Option<glow::NativeProgram>,
    capsule_shader_program: Option<glow::NativeProgram>,
    cylinder_shader_program: Option<glow::NativeProgram>,
    initialized: bool,
}

impl<S, A> AssetsManager<S, A> {
    /// A manager that has not loaded holds no object and no shader program.
    #[verifier::type_invariant]
    spec fn nothing_before_loading(self) -> bool {
        !self.initialized ==> {
            &&& self.static_assets@.len() == 0
            &&& self.animated_assets@.len() == 0
            &&& self.static_shader_program is None
            &&& self.animated_shader_program is None
            &&& self.static_outline_shader_program is None
            &&& self.animated_outline_shader_program is None
            &&& self.box_shader_program is None
            &&& self.sphere_shader_program is None
            &&& self.capsule_shader_program is None
            &&& self.cylinder_shader_program is None
        }
    }

    /// The static object cached for `name`, if any.
    pub closed spec fn static_asset(&self, name: Assets) -> Option<S> {
        table_get(self.static_assets@, name)
    }

    /// The animated object cached for `name`, if any.
    pub closed spec fn animated_asset(&self, name: Assets) -> Option<A> {
        table_get(self.animated_assets@, name)
    }

    /// The shader program created for `program`, if any.
    pub closed spec fn shader(&self, program: ShaderProgram) -> Option<glow::NativeProgram> {
        match program {
            ShaderProgram::Static => self.static_shader_program,
            ShaderProgram::Animated => self.animated_shader_program,
            ShaderProgram::StaticOutline => self.static_outline_shader_program,
            ShaderProgram::AnimatedOutline => self.animated_outline_shader_program,
            ShaderProgram::Box => self.box_shader_program,
            ShaderProgram::Sphere => self.sphere_shader_program,
            ShaderProgram::Capsule => self.capsule_shader_program,
            ShaderProgram::Cylinder => self.cylinder_shader_program,
        }
    }

    /// Whether the assets have been loaded.
    pub closed spec fn is_initialized(&self) -> bool {
        self.initialized
    }

    /// An empty manager: nothing loaded, no shader program.
    pub fn new() -> (res: Self)
        ensures
            !res.is_initialized(),
            forall|a: Assets| res.static_asset(a) is None && res.animated_asset(a) is None,
            forall|p: ShaderProgram| res.shader(p) is None,
    {
        AssetsManager {
            static_assets: Vec::new(),
            animated_assets: Vec::new(),
            static_shader_program: None,
            animated_shader_program: None,
            static_outline_shader_program: None,
            animated_outline_shader_program: None,
            box_shader_program: None,
            sphere_shader_program: None,
            capsule_shader_program: None,
            cylinder_shader_program: None,
            initialized: false,
        }
    }

    /// What a manager holds when it was loaded by `loader` from the data of
    /// the doll, the chair and the platform: each shader program is the one
    /// the loader created for it; the doll is the only animated object and
    /// is what the loader made of its document with the animated shader;
    /// the chair and the platform are the only static objects and are what
    /// the loader made of their documents with the static shader.
    pub open spec fn loaded_from<L: AssetLoader<S, A>>(
        self,
        loader: &L,
        doll: AssetData,
        chair: AssetData,
        platform: AssetData,
    ) -> bool {
        &&& self.is_initialized()
        &&& forall|p: ShaderProgram|
            #[trigger] self.shader(p) is Some && call_ensures(
                L::create_shader_program,
                (loader, p),
                self.shader(p).unwrap(),
            )
        &&& forall|a: Assets| #[trigger] self.static_asset(a) is Some <==> (a == Assets::Chair || a
            == Assets::BlockoutPlatform)
        &&& forall|a: Assets| #[trigger] self.animated_asset(a) is Some <==> a == Assets::TestingDoll
        &&& call_ensures(
            L::load_animated_gltf,
            (
                loader,
                Assets::TestingDoll,
                &gltf_document(doll.gltf@).unwrap(),
                &doll,
                self.shader(ShaderProgram::Animated).unwrap(),
            ),
            self.animated_asset(Assets::TestingDoll).unwrap(),
        )
        &&& call_ensures(
            L::load_static_gltf,
            (
                loader,
                Assets::Chair,
                &gltf_document(chair.gltf@).unwrap(),
                &chair,
                self.shader(ShaderProgram::Static).unwrap(),
            ),
            self.static_asset(Assets::Chair).unwrap(),
        )
        &&& call_ensures(
            L::load_static_gltf,
            (
                loader,
                Assets::BlockoutPlatform,
                &gltf_document(platform.gltf@).unwrap(),
                &platform,
                self.shader(ShaderProgram::Static).unwrap(),
            ),
            self.static_asset(Assets::BlockoutPlatform).unwrap(),
        )
    }

    /// Loads every asset once. The glTF data of the doll, the chair and the
    /// platform is parsed first; where one does not parse, the first such
    /// asset is reported and the manager is left as it is. Otherwise the
    /// shader programs are created, the doll is loaded as an animated object
    /// with the animated shader, the chair and the platform as static
    /// objects with the static shader, and the manager is marked
    /// initialized. A manager that is already initialized is left as it is.
    pub fn initialize_asset_manager<L: AssetLoader<S, A>>(
        &mut self,
        loader: &L,
        doll: &AssetData,
        chair: &AssetData,
        platform: &AssetData,
    ) -> (res: Result<(), AssetError>)
        ensures
            old(self).is_initialized() ==> res is Ok && *final(self) == *old(self),
            !old(self).is_initialized() ==> (res is Err <==> first_parse_failure(
                doll.gltf@,
                chair.gltf@,
                platform.gltf@,
            ) is Some),
            res matches Err(e) ==> *final(self) == *old(self) && e == AssetError::GltfParse(
                first_parse_failure(doll.gltf@, chair.gltf@, platform.gltf@).unwrap(),
            ),
            !old(self).is_initialized() && res is Ok ==> final(self).loaded_from(
                loader,
                *doll,
                *chair,
                *platform,
            ),
    {
        if self.initialized {
            return Ok(());
        }
        let doll_doc = match read_gltf(doll.gltf.as_slice()) {
            Some(d) => d,
            None => return Err(AssetError::GltfParse(Assets::TestingDoll)),
        };
        let chair_doc = match read_gltf(chair.gltf.as_slice()) {
            Some(d) => d,
            None => return Err(AssetError::GltfParse(Assets::Chair)),
        };
        let platform_doc = match read_gltf(platform.gltf.as_slice()) {
            Some(d) => d,
            None => return Err(AssetError::GltfParse(Assets::BlockoutPlatform)),
        };
        let static_shader = loader.create_shader_program(ShaderProgram::Static);
        let animated_shader = loader.create_shader_program(ShaderProgram::Animated);
        let static_outline_shader = loader.create_shader_program(ShaderProgram::StaticOutline);
        let animated_outline_shader = loader.create_shader_program(ShaderProgram::AnimatedOutline);
        let box_shader = loader.create_shader_program(ShaderProgram::Box);
        let sphere_shader = loader.create_shader_program(ShaderProgram::Sphere);
        let capsule_shader = loader.create_shader_program(ShaderProgram::Capsule);
        let cylinder_shader = loader.create_shader_program(ShaderProgram::Cylinder);

        let doll_object = loader.load_animated_gltf(Assets::TestingDoll, &doll_doc, doll, animated_shader);
        let chair_object = loader.load_static_gltf(Assets::Chair, &chair_doc, chair, static_shader);
        let platform_object = loader.load_static_gltf(
            Assets::BlockoutPlatform,
            &platform_doc,
            platform,
            static_shader,
        );
        let mut animated_assets: Vec<(Assets, A)> = Vec::new();
        animated_assets.push((Assets::TestingDoll, doll_object));
        let mut static_assets: Vec<(Assets, S)> = Vec::new();
        static_assets.push((Assets::Chair, chair_object));
        static_assets.push((Assets::BlockoutPlatform, platform_object));
        proof {
            reveal_with_fuel(table_get, 3);
        }
        *self = AssetsManager {
            static_assets,
            animated_assets,
            static_shader_program: Some(static_shader),
            animated_shader_program: Some(animated_shader),
            static_outline_shader_program: Some(static_outline_shader),
            animated_outline_shader_program: Some(animated_outline_shader),
            box_shader_program: Some(box_shader),
            sphere_shader_program: Some(sphere_shader),
            capsule_shader_program: Some(capsule_shader),
            cylinder_shader_program: Some(cylinder_shader),
            initialized: true,
        };
        Ok(())
    }

    /// Whether the assets have been loaded.
    pub fn initialized(&self) -> (res: bool)
        ensures
            res == self.is_initialized(),
    {
        self.initialized
    }

    /// Whether a static object is cached for `asset_name`.
    pub fn has_static_asset(&self, asset_name: Assets) -> (res: bool)
        ensures
            res == self.static_asset(asset_name) is Some,
    {
        find_asset(&self.static_assets, asset_name).is_some()
    }

    /// Whether an animated object is cached for `asset_name`.
    pub fn has_animated_asset(&self, asset_name: Assets) -> (res: bool)
        ensures
            res == self.animated_asset(asset_name) is Some,
    {
        find_asset(&self.animated_assets, asset_name).is_some()
    }

    /// Whether the shader program for `program` has been created.
    pub fn has_shader(&self, program: ShaderProgram) -> (res: bool)
        ensures
            res == self.shader(program) is Some,
    {
        match program {
            ShaderProgram::Static => self.static_shader_program.is_some(),
            ShaderProgram::Animated => self.animated_shader_program.is_some(),
            ShaderProgram::StaticOutline => self.static_outline_shader_program.is_some(),
            ShaderProgram::AnimatedOutline => self.animated_outline_shader_program.is_some(),
            ShaderProgram::Box => self.box_shader_program.is_some(),
            ShaderProgram::Sphere => self.sphere_shader_program.is_some(),
            ShaderProgram::Capsule => self.capsule_shader_program.is_some(),
            ShaderProgram::Cylinder => self.cylinder_shader_program.is_some(),
        }
    }

    /// A copy of the static object cached for `asset_name`.
    pub fn get_static_object_copy(&self, asset_name: Assets) -> (res: S) where S: Clone,
        requires
            self.is_initialized(),
            self.static_asset(asset_name) is Some,
        ensures
            cloned::<S>(self.static_asset(asset_name).unwrap(), res),
    {
        let i = find_asset(&self.static_assets, asset_name).unwrap();
        self.static_assets[i].1.clone()
    }

    /// A copy of the animated object cached for `asset_name`.
    pub fn get_animated_object_copy(&self, asset_name: Assets) -> (res: A) where A: Clone,
        requires
            self.is_initialized(),
            self.animated_asset(asset_name) is Some,
        ensures
            cloned::<A>(self.animated_asset(asset_name).unwrap(), res),
    {
        let i = find_asset(&self.animated_assets, asset_name).unwrap();
        self.animated_assets[i].1.clone()
    }

    /// The shader program created for `program`.
    pub fn shader_program(&self, program: ShaderProgram) -> (res: glow::NativeProgram)
        requires
            self.shader(program) is Some,
        ensures
            res == self.shader(program).unwrap(),
    {
        let p = match program {
            ShaderProgram::Static => self.static_shader_program,
            ShaderProgram::Animated => self.animated_shader_program,
            ShaderProgram::StaticOutline => self.static_outline_shader_program,
            ShaderProgram::AnimatedOutline => self.animated_outline_shader_program,
            ShaderProgram::Box => self.box_shader_program,
            ShaderProgram::Sphere => self.sphere_shader_program,
            ShaderProgram::Capsule => self.capsule_shader_program,
            ShaderProgram::Cylinder => self.cylinder_shader_program,
        };
        p.unwrap()
    }
}

/// A copy of the static object `manager` caches for `asset_name`.
pub fn get_static_object_copy<S: Clone, A>(manager: &AssetsManager<S, A>, asset_name: Assets) -> (res: S)
    requires
        manager.is_initialized(),
        manager.static_asset(asset_name) is Some,
    ensures
        cloned::<S>(manager.static_asset(asset_name).unwrap(), res),
{
    manager.get_static_object_copy(asset_name)
}

/// A copy of the animated object `manager` caches for `asset_name`.
pub fn get_animated_object_copy<S, A: Clone>(manager: &AssetsManager<S, A>, asset_name: Assets) -> (res: A)
    requires
        manager.is_initialized(),
        manager.animated_asset(asset_name) is Some,
    ensures
        cloned::<A>(manager.animated_asset(asset_name).unwrap(), res),
{
    manager.get_animated_object_copy(asset_name)
}

/// The outline shader program for static objects.
pub fn get_static_outline_shader<S, A>(manager: &AssetsManager<S, A>) -> (res: glow::NativeProgram)
    requires
        manager.shader(ShaderProgram::StaticOutline) is Some,
    ensures
        res == manager.shader(ShaderProgram::StaticOutline).unwrap(),
{
    manager.shader_program(ShaderProgram::StaticOutline)
}

/// The outline shader program for animated objects.
pub fn get_animated_outline_shader<S, A>(manager: &AssetsManager<S, A>) -> (res: glow::NativeProgram)
    requires
        manager.shader(ShaderProgram::AnimatedOutline) is Some,
    ensures
        res == manager.shader(ShaderProgram::AnimatedOutline).unwrap(),
{
    manager.shader_program(ShaderProgram::AnimatedOutline)
}

/// The shader program for box colliders.
pub fn get_box_shader<S, A>(manager: &AssetsManager<S, A>) -> (res: glow::NativeProgram)
    requires
        manager.shader(ShaderProgram::Box) is Some,
    ensures
        res == manager.shader(ShaderProgram::Box).unwrap(),
{
    manager.shader_program(ShaderProgram::Box)
}

/// The shader program for sphere colliders.
pub fn get_sphere_shader<S, A>(manager: &AssetsManager<S, A>) -> (res: glow::NativeProgram)
    requires
        manager.shader(ShaderProgram::Sphere) is Some,
    ensures
        res == manager.shader(ShaderProgram::Sphere).unwrap(),
{
    manager.shader_program(ShaderProgram::Sphere)
}

/// The shader program for capsule colliders.
pub fn get_capsule_shader<S, A>(manager: &AssetsManager<S, A>) -> (res: glow::NativeProgram)
    requires
        manager.shader(ShaderProgram::Capsule) is Some,
    ensures
        res == manager.shader(ShaderProgram::Capsule).unwrap(),
{
    manager.shader_program(ShaderProgram::Capsule)
}

/// The shader program for cylinder colliders.
pub fn get_cylinder_shader<S, A>(manager: &AssetsManager<S, A>) -> (res: glow::NativeProgram)
    requires
        manager.shader(ShaderProgram::Cylinder) is Some,
    ensures
        res == manager.shader(ShaderProgram::Cylinder).unwrap(),
{
    manager.shader_program(ShaderProgram::Cylinder)
}

} // verus!
