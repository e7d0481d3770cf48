//! CTAP passthrough core: CTAPHID framing, the remote-side service state
//! machine, the local relay decisions, uhid event encoding and the
//! companion WebSocket protocol decisions, each with its contract.
pub mod ctap_hid;
pub mod framing_laws;
pub mod ctap_frame;
pub mod ctap_service;
pub mod service_laws;
pub mod fido_relay;
pub mod ctap_local;
pub mod ctap_virtual_device;
pub mod ctap_vhf;
pub mod ctap_driverkit;
pub mod ctap_uhid;
pub mod protocol;
pub mod ws_server;
pub mod passthrough_laws;
pub mod relay_laws;
