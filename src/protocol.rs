//! The compositor globals this library binds, recognised by interface name.

use vstd::prelude::*;
use wayland_client::protocol::wl_output::WlOutput;
use wayland_client::Proxy;
use wayland_protocols::wp::linux_dmabuf::zv1::client::zwp_linux_dmabuf_v1::ZwpLinuxDmabufV1;
use wayland_protocols_wlr::screencopy::v1::client::zwlr_screencopy_manager_v1::ZwlrScreencopyManagerV1;

verus! {

/// What an announced global is to the capture subsystem.
#[derive(Clone, Copy, Debug, PartialEq, Eq, Structural)]
pub enum GlobalKind {
    /// A display output (`wl_output`).
    Output,
    /// The screen-copy manager (`zwlr_screencopy_manager_v1`).
    CaptureManager,
    /// The dma-buf buffer factory (`zwp_linux_dmabuf_v1`).
    DmabufFactory,
    /// Any other interface, or one that needs no binding.
    Ignored,
}

/// The kind of a global with the given interface name.
pub open spec fn spec_global_kind(interface: Seq<char>) -> GlobalKind {
    if interface == "wl_output"@ {
        GlobalKind::Output
    } else if interface == "zwlr_screencopy_manager_v1"@ {
        GlobalKind::CaptureManager
    } else if interface == "zwp_linux_dmabuf_v1"@ {
        GlobalKind::DmabufFactory
    } else {
        GlobalKind::Ignored
    }
}

/// Relies on `wayland_client::Proxy::interface` for `WlOutput`: its `name` is
/// the `wl_output` interface of `wayland.xml`.
#[verifier::external_body]
fn output_interface() -> (r: String)
    ensures
        r@ == "wl_output"@,
{
    WlOutput::interface().name.to_string()
}

/// Relies on `wayland_client::Proxy::interface` for `ZwlrScreencopyManagerV1`:
/// its `name` is the `zwlr_screencopy_manager_v1` interface of
/// `wlr-screencopy-unstable-v1.xml`.
#[verifier::external_body]
fn capture_manager_interface() -> (r: String)
    ensures
        r@ == "zwlr_screencopy_manager_v1"@,
{
    ZwlrScreencopyManagerV1::interface().name.to_string()
}

/// Relies on `wayland_client::Proxy::interface` for `ZwpLinuxDmabufV1`: its
/// `name` is the `zwp_linux_dmabuf_v1` interface of `linux-dmabuf-v1.xml`.
#[verifier::external_body]
fn dmabuf_factory_interface() -> (r: String)
    ensures
        r@ == "zwp_linux_dmabuf_v1"@,
{
    ZwpLinuxDmabufV1::interface().name.to_string()
}

/// Recognises the globals the capture subsystem binds; every other interface
/// is ignored.
pub fn classify_global(interface: &String) -> (r: GlobalKind)
    ensures
        r == spec_global_kind(interface@),
{
    if *interface == output_interface() {
        GlobalKind::Output
    } else if *interface == capture_manager_interface() {
        GlobalKind::CaptureManager
    } else if *interface == dmabuf_factory_interface() {
        GlobalKind::DmabufFactory
    } else {
        GlobalKind::Ignored
    }
}

} // verus!
