//! Plain data types of the Docker API surface that the decoders' callers
//! exchange: inspect responses and specifications, each field optional and
//! reached through set/with/get/reset accessors.

pub mod distribution_inspect_response_platforms;
pub mod driver;
pub mod engine_description;
pub mod engine_description_plugins;
pub mod exec_inspect_response;
pub mod process_config;
pub mod secret_spec;
pub mod swarm_spec_encryption_config;
pub mod swarm_spec_raft;

pub use distribution_inspect_response_platforms::DistributionInspectResponsePlatforms;
pub use driver::Driver;
pub use engine_description::EngineDescription;
pub use engine_description_plugins::EngineDescriptionPlugins;
pub use exec_inspect_response::ExecInspectResponse;
pub use process_config::ProcessConfig;
pub use secret_spec::SecretSpec;
pub use swarm_spec_encryption_config::SwarmSpecEncryptionConfig;
pub use swarm_spec_raft::SwarmSpecRaft;
