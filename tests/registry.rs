use okulekrano::capture::{CaptureError, CaptureSession};
use okulekrano::protocol::{classify_global, GlobalKind};
use okulekrano::registry::{MonitorInfo, OutputEvent, OutputRegistry};

fn s(x: &str) -> String {
    x.to_string()
}

fn with_globals(reg: &mut OutputRegistry) {
    assert_eq!(reg.announce(40, &s("zwlr_screencopy_manager_v1"), 3), GlobalKind::CaptureManager);
    assert_eq!(reg.announce(41, &s("zwp_linux_dmabuf_v1"), 4), GlobalKind::DmabufFactory);
}

fn named(reg: &mut OutputRegistry, id: u32, name: &str) {
    reg.apply(OutputEvent::Name { output: id, name: s(name) });
}

#[test]
fn classify_recognises_the_three_globals() {
    assert_eq!(classify_global(&s("wl_output")), GlobalKind::Output);
    assert_eq!(classify_global(&s("zwlr_screencopy_manager_v1")), GlobalKind::CaptureManager);
    assert_eq!(classify_global(&s("zwp_linux_dmabuf_v1")), GlobalKind::DmabufFactory);
    assert_eq!(classify_global(&s("wl_seat")), GlobalKind::Ignored);
    assert_eq!(classify_global(&s("")), GlobalKind::Ignored);
}

#[test]
fn announce_records_outputs_once_in_order() {
    let mut reg = OutputRegistry::new();
    assert_eq!(reg.announce(7, &s("wl_output"), 4), GlobalKind::Output);
    assert_eq!(reg.announce(3, &s("wl_output"), 4), GlobalKind::Output);
    assert_eq!(reg.announce(7, &s("wl_output"), 4), GlobalKind::Ignored);
    assert_eq!(reg.announce(9, &s("wl_compositor"), 6), GlobalKind::Ignored);
    assert_eq!(reg.outputs.len(), 2);
    assert_eq!(reg.outputs[0].id, 7);
    assert_eq!(reg.outputs[1].id, 3);
    assert!(reg.outputs[0].name.is_none());
    assert!(reg.manager.is_none());
    with_globals(&mut reg);
    assert_eq!(reg.manager.unwrap().id, 40);
    assert_eq!(reg.manager.unwrap().version, 3);
    assert_eq!(reg.dmabuf_factory.unwrap().id, 41);
    assert!(reg.contains(3));
    assert!(!reg.contains(40));
}

#[test]
fn later_manager_replaces_earlier() {
    let mut reg = OutputRegistry::new();
    reg.announce(1, &s("zwlr_screencopy_manager_v1"), 1);
    reg.announce(2, &s("zwlr_screencopy_manager_v1"), 3);
    assert_eq!(reg.manager.unwrap().id, 2);
    assert_eq!(reg.manager.unwrap().version, 3);
}

#[test]
fn property_events_update_their_output_only() {
    let mut reg = OutputRegistry::new();
    reg.announce(1, &s("wl_output"), 4);
    reg.announce(2, &s("wl_output"), 4);
    reg.apply(OutputEvent::Mode { output: 2, width: 1920, height: 1080 });
    named(&mut reg, 1, "DP-1");
    named(&mut reg, 99, "ghost");
    assert_eq!(reg.outputs[0].name.as_deref(), Some("DP-1"));
    assert_eq!(reg.outputs[0].width, None);
    assert_eq!(reg.outputs[1].name, None);
    assert_eq!(reg.outputs[1].width, Some(1920));
    assert_eq!(reg.outputs[1].height, Some(1080));
}

#[test]
fn find_named_picks_earliest() {
    let mut reg = OutputRegistry::new();
    for id in [5u32, 6, 7] {
        reg.announce(id, &s("wl_output"), 4);
    }
    named(&mut reg, 5, "A");
    named(&mut reg, 6, "B");
    named(&mut reg, 7, "B");
    assert_eq!(reg.find_named(&s("B")), Some(1));
    assert_eq!(reg.find_named(&s("A")), Some(0));
    assert_eq!(reg.find_named(&s("C")), None);
}

fn registry_in_order(order: &[(u32, &str)], name_first: bool) -> OutputRegistry {
    let mut reg = OutputRegistry::new();
    with_globals(&mut reg);
    for (id, _) in order {
        reg.announce(*id, &s("wl_output"), 4);
    }
    for (id, name) in order.iter().rev() {
        let mode = OutputEvent::Mode { output: *id, width: 1000 + *id as i32, height: 500 };
        if name_first {
            named(&mut reg, *id, name);
            reg.apply(mode);
        } else {
            reg.apply(mode);
            named(&mut reg, *id, name);
        }
    }
    reg
}

#[test]
fn selection_by_name_ignores_announcement_order() {
    let b = s("B");
    let first = registry_in_order(&[(1, "A"), (2, "B")], true);
    let second = registry_in_order(&[(2, "B"), (1, "A")], false);
    let s1 = CaptureSession::new(&first, Some(&b)).unwrap();
    let s2 = CaptureSession::new(&second, Some(&b)).unwrap();
    assert_eq!(s1.target.output, 2);
    assert_eq!(s2.target.output, 2);
    assert_eq!(s1.target.name.as_deref(), Some("B"));
    assert_eq!(s2.target.name.as_deref(), Some("B"));
    assert_eq!(s1.resolution(), Some((1002, 500)));
    assert_eq!(s2.resolution(), Some((1002, 500)));
}

#[test]
fn without_name_the_earliest_output_is_chosen() {
    let reg = registry_in_order(&[(9, "HDMI-A-1"), (4, "eDP-1")], true);
    let session = CaptureSession::new(&reg, None).unwrap();
    assert_eq!(session.target.output, 9);
}

#[test]
fn unknown_name_is_output_not_found() {
    let reg = registry_in_order(&[(1, "A"), (2, "B")], true);
    let r = CaptureSession::new(&reg, Some(&s("C")));
    assert_eq!(r.err(), Some(CaptureError::OutputNotFound));
}

#[test]
fn no_output_is_output_not_found() {
    let mut reg = OutputRegistry::new();
    with_globals(&mut reg);
    assert_eq!(CaptureSession::new(&reg, None).err(), Some(CaptureError::OutputNotFound));
}

#[test]
fn missing_manager_is_global_missing() {
    let mut reg = OutputRegistry::new();
    reg.announce(1, &s("wl_output"), 4);
    named(&mut reg, 1, "A");
    reg.announce(41, &s("zwp_linux_dmabuf_v1"), 4);
    assert_eq!(CaptureSession::new(&reg, None).err(), Some(CaptureError::GlobalMissing));
    assert_eq!(
        CaptureSession::new(&reg, Some(&s("Z"))).err(),
        Some(CaptureError::OutputNotFound)
    );
}

#[test]
fn resolution_needs_a_mode() {
    let mut reg = OutputRegistry::new();
    with_globals(&mut reg);
    reg.announce(1, &s("wl_output"), 4);
    let session = CaptureSession::new(&reg, None).unwrap();
    assert_eq!(session.resolution(), None);
}

#[test]
fn complete_monitors_are_handed_out_once() {
    let mut reg = OutputRegistry::new();
    reg.announce(1, &s("wl_output"), 4);
    reg.announce(2, &s("wl_output"), 4);
    named(&mut reg, 1, "DP-1");
    assert!(reg.take_complete().is_none());
    reg.apply(OutputEvent::Mode { output: 2, width: 3840, height: 1080 });
    named(&mut reg, 2, "DP-2");
    let m = reg.take_complete().unwrap();
    assert_eq!(m.name, "DP-2");
    assert_eq!(m.width, 3840);
    assert_eq!(m.height, 1080);
    assert!(reg.take_complete().is_none());
    reg.apply(OutputEvent::Mode { output: 1, width: 1920, height: 1080 });
    assert_eq!(reg.take_complete().unwrap().name, "DP-1");
    assert!(reg.take_complete().is_none());
}

#[test]
fn stereo_mode_needs_name_and_width() {
    let wide = MonitorInfo { name: s("glasses"), width: 3840, height: 1080 };
    let narrow = MonitorInfo { name: s("glasses"), width: 1920, height: 1080 };
    let edge = MonitorInfo { name: s("glasses"), width: 3000, height: 1080 };
    assert!(wide.shows_stereo_mode(&s("glasses")));
    assert!(!wide.shows_stereo_mode(&s("other")));
    assert!(!narrow.shows_stereo_mode(&s("glasses")));
    assert!(!edge.shows_stereo_mode(&s("glasses")));
}
