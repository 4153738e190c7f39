use std::cell::RefCell;
use std::num::NonZeroU32;

use engine::gui::native_bridge::NativeBridge;
use engine::managers::asset_data::{has_short_glb_header, read_gltf, AssetData};
use engine::managers::assets_manager::{
    get_animated_object_copy, get_animated_outline_shader, get_box_shader, get_capsule_shader,
    get_cylinder_shader, get_sphere_shader, get_static_object_copy, get_static_outline_shader,
    AssetError, AssetLoader, Assets, AssetsManager, ShaderProgram,
};
use engine::managers::object_cache::{self, ObjectCache, ObjectLoader};

const MINIMAL_GLTF: &str = r#"{"asset":{"version":"2.0"}}"#;

fn data(gltf: &str, bin: &str) -> AssetData {
    AssetData { gltf: gltf.as_bytes().to_vec(), bin: bin.as_bytes().to_vec(), png: Vec::new() }
}

fn shipped() -> (AssetData, AssetData, AssetData) {
    (data(MINIMAL_GLTF, "doll"), data(MINIMAL_GLTF, "chair"), data(MINIMAL_GLTF, "platform"))
}

struct FakeGpu {
    calls: RefCell<Vec<String>>,
}

fn program_number(p: ShaderProgram) -> u32 {
    match p {
        ShaderProgram::Static => 1,
        ShaderProgram::Animated => 2,
        ShaderProgram::StaticOutline => 3,
        ShaderProgram::AnimatedOutline => 4,
        ShaderProgram::Box => 5,
        ShaderProgram::Sphere => 6,
        ShaderProgram::Capsule => 7,
        ShaderProgram::Cylinder => 8,
    }
}

impl AssetLoader<String, String> for FakeGpu {
    fn create_shader_program(&self, program: ShaderProgram) -> glow::NativeProgram {
        self.calls.borrow_mut().push(format!("shader {:?}", program));
        glow::NativeProgram(NonZeroU32::new(program_number(program)).unwrap())
    }

    fn load_static_gltf(
        &self,
        asset_name: Assets,
        _gltf: &gltf::Gltf,
        data: &AssetData,
        shader_program: glow::NativeProgram,
    ) -> String {
        self.calls.borrow_mut().push(format!("static {:?}", asset_name));
        format!("static {:?} with {} from {}", asset_name, shader_program.0, String::from_utf8_lossy(&data.bin))
    }

    fn load_animated_gltf(
        &self,
        asset_name: Assets,
        _gltf: &gltf::Gltf,
        data: &AssetData,
        shader_program: glow::NativeProgram,
    ) -> String {
        self.calls.borrow_mut().push(format!("animated {:?}", asset_name));
        format!("animated {:?} with {} from {}", asset_name, shader_program.0, String::from_utf8_lossy(&data.bin))
    }
}

#[test]
fn initialize_loads_every_asset_once() {
    let gpu = FakeGpu { calls: RefCell::new(Vec::new()) };
    let mut m: AssetsManager<String, String> = AssetsManager::new();
    let (doll, chair, platform) = shipped();
    assert_eq!(m.initialize_asset_manager(&gpu, &doll, &chair, &platform), Ok(()));
    assert_eq!(gpu.calls.borrow().len(), 11);
    assert_eq!(get_animated_object_copy(&m, Assets::TestingDoll), "animated TestingDoll with 2 from doll");
    assert_eq!(get_static_object_copy(&m, Assets::Chair), "static Chair with 1 from chair");
    assert_eq!(m.get_static_object_copy(Assets::BlockoutPlatform), "static BlockoutPlatform with 1 from platform");
    assert_eq!(get_static_outline_shader(&m).0.get(), 3);
    assert_eq!(get_animated_outline_shader(&m).0.get(), 4);
    assert_eq!(get_box_shader(&m).0.get(), 5);
    assert_eq!(get_sphere_shader(&m).0.get(), 6);
    assert_eq!(get_capsule_shader(&m).0.get(), 7);
    assert_eq!(get_cylinder_shader(&m).0.get(), 8);
    // a second initialization does nothing
    assert_eq!(m.initialize_asset_manager(&gpu, &doll, &chair, &platform), Ok(()));
    assert_eq!(gpu.calls.borrow().len(), 11);
}

struct FlakyLoader;

impl ObjectLoader<u32> for FlakyLoader {
    fn load_gltf(&self, asset_name: object_cache::Assets, _gltf: &gltf::Gltf, _data: &AssetData) -> Option<u32> {
        match asset_name {
            object_cache::Assets::TestingDoll => Some(7),
            object_cache::Assets::Chair => None,
        }
    }
}

#[test]
fn object_cache_hands_out_loaded_objects_only() {
    let mut cache: ObjectCache<u32> = ObjectCache::new();
    assert_eq!(cache.get_object3d_copy(object_cache::Assets::TestingDoll), None);
    cache.initialize(&FlakyLoader, &data(MINIMAL_GLTF, ""), &data(MINIMAL_GLTF, ""));
    assert_eq!(cache.get_object3d_copy(object_cache::Assets::TestingDoll), Some(7));
    assert_eq!(cache.get_object3d_copy(object_cache::Assets::Chair), None);
}

#[test]
fn native_bridge_starts_its_first_frame_at_start() {
    let b = NativeBridge::new();
    assert_eq!(b.start_time, b.last_frame_time);
}

#[test]
fn manager_reports_what_it_holds() {
    let gpu = FakeGpu { calls: RefCell::new(Vec::new()) };
    let mut m: AssetsManager<String, String> = AssetsManager::new();
    assert!(!m.initialized());
    assert!(!m.has_static_asset(Assets::Chair));
    assert!(!m.has_animated_asset(Assets::TestingDoll));
    assert!(!m.has_shader(ShaderProgram::Box));
    let (doll, chair, platform) = shipped();
    assert!(m.initialize_asset_manager(&gpu, &doll, &chair, &platform).is_ok());
    assert!(m.initialized());
    assert!(m.has_static_asset(Assets::Chair));
    assert!(m.has_static_asset(Assets::BlockoutPlatform));
    assert!(!m.has_static_asset(Assets::TestingDoll));
    assert!(m.has_animated_asset(Assets::TestingDoll));
    assert!(!m.has_animated_asset(Assets::Chair));
    assert!(m.has_shader(ShaderProgram::Static));
    assert!(m.has_shader(ShaderProgram::Cylinder));
    assert_eq!(m.shader_program(ShaderProgram::Animated).0.get(), 2);
}

#[test]
fn gltf_data_parses_only_when_valid() {
    assert!(read_gltf(MINIMAL_GLTF.as_bytes()).is_some());
    assert!(read_gltf(b"not gltf").is_none());
    // binary glTF, version 2, with a total length of 0
    let short: [u8; 12] = [b'g', b'l', b'T', b'F', 2, 0, 0, 0, 0, 0, 0, 0];
    assert!(has_short_glb_header(&short));
    assert!(read_gltf(&short).is_none());
    let long_enough: [u8; 12] = [b'g', b'l', b'T', b'F', 2, 0, 0, 0, 12, 0, 0, 0];
    assert!(!has_short_glb_header(&long_enough));
    assert!(read_gltf(&long_enough).is_none());
}

#[test]
fn unparsable_asset_stops_loading_and_leaves_manager_empty() {
    let gpu = FakeGpu { calls: RefCell::new(Vec::new()) };
    let mut m: AssetsManager<String, String> = AssetsManager::new();
    let (doll, _, platform) = shipped();
    let chair = data("{", "chair");
    assert_eq!(
        m.initialize_asset_manager(&gpu, &doll, &chair, &platform),
        Err(AssetError::GltfParse(Assets::Chair))
    );
    assert!(gpu.calls.borrow().is_empty());
    assert!(!m.initialized());
    assert!(!m.has_shader(ShaderProgram::Static));
    let bad_doll = data("", "doll");
    assert_eq!(
        m.initialize_asset_manager(&gpu, &bad_doll, &chair, &platform),
        Err(AssetError::GltfParse(Assets::TestingDoll))
    );
}

#[test]
fn object_cache_keeps_what_loads_and_skips_what_does_not_parse() {
    let mut cache: ObjectCache<u32> = ObjectCache::new();
    cache.initialize(&FlakyLoader, &data("garbage", ""), &data(MINIMAL_GLTF, ""));
    assert_eq!(cache.get_object3d_copy(object_cache::Assets::TestingDoll), None);
    assert_eq!(cache.get_object3d_copy(object_cache::Assets::Chair), None);
    let mut cache: ObjectCache<u32> = ObjectCache::new();
    cache.keep_loaded(object_cache::Assets::Chair, Some(3));
    cache.keep_loaded(object_cache::Assets::Chair, None);
    cache.load_gltf(&FlakyLoader, &data(MINIMAL_GLTF, ""), object_cache::Assets::TestingDoll);
    cache.initialize(&FlakyLoader, &data("", ""), &data("", ""));
    assert_eq!(cache.get_object3d_copy(object_cache::Assets::Chair), Some(3));
    assert_eq!(cache.get_object3d_copy(object_cache::Assets::TestingDoll), Some(7));
}

#[test]
fn short_binary_header_is_reported_as_a_parse_failure() {
    let gpu = FakeGpu { calls: RefCell::new(Vec::new()) };
    let mut m: AssetsManager<String, String> = AssetsManager::new();
    let (doll, chair, _) = shipped();
    let platform = AssetData { gltf: b"glTF\x02\0\0\0\x05\0\0\0".to_vec(), bin: Vec::new(), png: Vec::new() };
    assert_eq!(
        m.initialize_asset_manager(&gpu, &doll, &chair, &platform),
        Err(AssetError::GltfParse(Assets::BlockoutPlatform))
    );
    let mut cache: ObjectCache<u32> = ObjectCache::new();
    cache.load_gltf(&FlakyLoader, &platform, object_cache::Assets::TestingDoll);
    cache.initialize(&FlakyLoader, &platform, &platform);
    assert_eq!(cache.get_object3d_copy(object_cache::Assets::TestingDoll), None);
}
