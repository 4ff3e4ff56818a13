use vstd::prelude::*;
use vulkano_util::context::VulkanoConfig;

verus! {

/// Creation options of the Vulkan context; handed on as they are.
#[verifier::external_type_specification]
#[verifier::external_body]
pub struct ExVulkanoConfig(vulkano_util::context::VulkanoConfig);

/// Vulkano and winit related configuration.
pub struct VulkanoWinitConfig {
    /// Whether the event loop returns control to its caller once it has
    /// exited, instead of ending the process.
    pub return_from_run: bool,
    /// Creation options of the Vulkan context.
    pub vulkano_config: VulkanoConfig,
    /// Whether the application starts with a window.
    pub add_primary_window: bool,
}

/// `VulkanoConfig::default`: the context options vulkano-util starts from.
/// Nothing is claimed of them.
#[verifier::external_body]
fn default_vulkano_config() -> VulkanoConfig {
    VulkanoConfig::default()
}

impl Default for VulkanoWinitConfig {
    /// The event loop does not return, the context takes its default
    /// options, and the application starts with a window.
    fn default() -> (config: VulkanoWinitConfig)
        ensures
            !config.return_from_run,
            config.add_primary_window,
    {
        VulkanoWinitConfig {
            return_from_run: false,
            vulkano_config: default_vulkano_config(),
            add_primary_window: true,
        }
    }
}

} // verus!
