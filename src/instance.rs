use vstd::prelude::*;
use vstd::string::*;

verus! {

/// Window size used when the surface leaves the swapchain extent undefined.
pub const WINDOW_WIDTH: u32 = 800u32;

pub const WINDOW_HEIGHT: u32 = 600u32;

/// Relies on ash::vk::make_api_version: it packs variant, major, minor and
/// patch into one word, with shifts of 29, 22 and 12 bits.
#[verifier::external_body]
fn make_api_version(variant: u32, major: u32, minor: u32, patch: u32) -> (r: u32)
    ensures
        r == ((variant << 29u32) | (major << 22u32) | (minor << 12u32) | patch),
{
    ash::vk::make_api_version(variant, major, minor, patch)
}

/// Relies on ash::ext::debug_utils::NAME, the name of the debug-messenger
/// instance extension.
#[verifier::external_body]
fn debug_utils_extension_name() -> (r: String)
    ensures
        r@ == "VK_EXT_debug_utils"@,
{
    ash::ext::debug_utils::NAME.to_string_lossy().into_owned()
}

/// Relies on ash::khr::swapchain::NAME, the name of the swapchain device
/// extension.
#[verifier::external_body]
fn swapchain_extension_name() -> (r: String)
    ensures
        r@ == "VK_KHR_swapchain"@,
{
    ash::khr::swapchain::NAME.to_string_lossy().into_owned()
}

/// The lowest API version the context asks for: 1.2.162, variant 0. It covers
/// the ray-tracing and acceleration-structure extensions.
pub fn minimum_api_version() -> (r: u32)
    ensures
        r == 4202658u32,
{
    let v = make_api_version(0, 1, 2, 162);
    assert(((0u32 << 29u32) | (1u32 << 22u32) | (2u32 << 12u32) | 162u32) == 4202658u32)
        by (bit_vector);
    v
}

/// The device extensions that a device must offer and that the logical
/// device enables: ray-tracing pipeline, SPIR-V 1.4, acceleration structure,
/// deferred host operations and swapchain.
pub fn required_device_extensions() -> (r: Vec<String>)
    ensures
        r@.len() == 5,
        r@[0]@ == "VK_KHR_ray_tracing_pipeline"@,
        r@[1]@ == "VK_KHR_spirv_1_4"@,
        r@[2]@ == "VK_KHR_acceleration_structure"@,
        r@[3]@ == "VK_KHR_deferred_host_operations"@,
        r@[4]@ == "VK_KHR_swapchain"@,
{
    let mut r: Vec<String> = Vec::new();
    r.push(String::from_str("VK_KHR_ray_tracing_pipeline"));
    r.push(String::from_str("VK_KHR_spirv_1_4"));
    r.push(String::from_str("VK_KHR_acceleration_structure"));
    r.push(String::from_str("VK_KHR_deferred_host_operations"));
    r.push(swapchain_extension_name());
    r
}

/// The validation layer when diagnostics are enabled, no layer otherwise.
pub fn instance_layers(diagnostics: bool) -> (r: Vec<String>)
    ensures
        diagnostics ==> r@.len() == 1 && r@[0]@ == "VK_LAYER_KHRONOS_validation"@,
        !diagnostics ==> r@.len() == 0,
{
    let mut r: Vec<String> = Vec::new();
    if diagnostics {
        r.push(String::from_str("VK_LAYER_KHRONOS_validation"));
    }
    r
}

/// The platform's surface extensions, in their order, followed by the
/// debug-messenger extension when diagnostics are enabled.
pub fn instance_extensions(platform: &Vec<String>, diagnostics: bool) -> (r: Vec<String>)
    requires
        platform@.len() < usize::MAX,
    ensures
        r@.len() == platform@.len() + if diagnostics {
            1int
        } else {
            0int
        },
        forall|i: int| 0 <= i < platform@.len() ==> #[trigger] r@[i]@ == platform@[i]@,
        diagnostics ==> r@[platform@.len() as int]@ == "VK_EXT_debug_utils"@,
{
    let mut r: Vec<String> = Vec::new();
    let mut i: usize = 0;
    while i < platform.len()
        invariant
            i <= platform@.len(),
            r@.len() == i,
            forall|k: int| 0 <= k < i ==> #[trigger] r@[k]@ == platform@[k]@,
        decreases platform@.len() - i,
    {
        r.push(platform[i].clone());
        i = i + 1;
    }
    if diagnostics {
        r.push(debug_utils_extension_name());
    }
    r
}

/// What the context is created with.
pub struct ContextConfig {
    pub application_name: String,
    pub engine_name: String,
    pub api_version: u32,
    pub layers: Vec<String>,
    pub extensions: Vec<String>,
}

/// Assembles the context's request from the window's required surface
/// extensions and the diagnostics flag.
pub fn context_config(platform_extensions: &Vec<String>, diagnostics: bool) -> (r: ContextConfig)
    requires
        platform_extensions@.len() < usize::MAX,
    ensures
        r.application_name@ == "VoxelVoxel"@,
        r.engine_name@ == "No Engine"@,
        r.api_version == 4202658u32,
        diagnostics ==> r.layers@.len() == 1 && r.layers@[0]@ == "VK_LAYER_KHRONOS_validation"@,
        !diagnostics ==> r.layers@.len() == 0,
        r.extensions@.len() == platform_extensions@.len() + if diagnostics {
            1int
        } else {
            0int
        },
        forall|i: int|
            0 <= i < platform_extensions@.len() ==> #[trigger] r.extensions@[i]@
                == platform_extensions@[i]@,
        diagnostics ==> r.extensions@[platform_extensions@.len() as int]@ == "VK_EXT_debug_utils"@,
{
    ContextConfig {
        application_name: String::from_str("VoxelVoxel"),
        engine_name: String::from_str("No Engine"),
        api_version: minimum_api_version(),
        layers: instance_layers(diagnostics),
        extensions: instance_extensions(platform_extensions, diagnostics),
    }
}

} // verus!
