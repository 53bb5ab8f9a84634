use screencopy::descriptor::BufferDescriptor;
use screencopy::pixel::PixelFormat;
use screencopy::registry::Role;
use screencopy::session::{FrameEvent, Phase, QueueEvent, Session, SessionError};

fn global(name: u32, interface: &str, version: u32) -> QueueEvent {
    QueueEvent::Global { name, interface: String::from(interface), version }
}

fn ready_session() -> Session {
    let mut s = Session::new();
    s.handle_global(1, "wl_compositor", 4);
    s.handle_global(2, "wl_output", 3);
    s.handle_global(3, "wl_shm", 1);
    s.handle_global(4, "zwlr_screencopy_manager_v1", 3);
    s
}

fn negotiated_session() -> Session {
    let mut s = ready_session();
    s.start_capture().unwrap();
    s.handle_frame_event(FrameEvent::Buffer {
        format: PixelFormat::Argb8888,
        width: 1024,
        height: 768,
        stride: 4096,
    });
    s
}

#[test]
fn readiness_requires_all_four_roles() {
    let mut s = Session::new();
    assert!(!s.is_ready());
    s.handle_global(7, "wl_shm", 1);
    assert!(!s.is_ready());
    s.handle_global(8, "zwlr_screencopy_manager_v1", 3);
    assert!(!s.is_ready());
    s.handle_global(9, "wl_output", 3);
    assert!(!s.is_ready());
    s.handle_global(10, "wl_compositor", 4);
    assert!(s.is_ready());
}

#[test]
fn readiness_in_any_announcement_order() {
    let orders: [[&str; 4]; 3] = [
        ["wl_compositor", "wl_output", "wl_shm", "zwlr_screencopy_manager_v1"],
        ["zwlr_screencopy_manager_v1", "wl_shm", "wl_output", "wl_compositor"],
        ["wl_output", "zwlr_screencopy_manager_v1", "wl_compositor", "wl_shm"],
    ];
    for order in orders.iter() {
        let mut s = Session::new();
        let mut name: u32 = 1;
        for interface in order.iter() {
            s.handle_global(name, interface, 1);
            name += 1;
        }
        assert!(s.is_ready());
    }
}

#[test]
fn unknown_interfaces_are_ignored() {
    let mut s = Session::new();
    assert!(s.handle_global(11, "wl_seat", 5).is_none());
    assert!(s.handle_global(12, "xdg_wm_base", 2).is_none());
    assert_eq!(s, Session::new());
}

#[test]
fn no_screencopy_manager_means_not_ready() {
    let mut s = Session::new();
    s.handle_global(1, "wl_compositor", 4);
    s.handle_global(2, "wl_output", 3);
    s.handle_global(3, "wl_shm", 1);
    assert!(!s.is_ready());
    let r = s.start_capture();
    assert_eq!(r, Err(SessionError::NotReady));
    assert_eq!(s.phase, Phase::Failed);
    // The session never reached negotiation, so no shared memory is
    // ever sized or allocated for it.
    assert_eq!(s.descriptor, None);
}

#[test]
fn two_outputs_first_bound_wins() {
    let mut s = Session::new();
    s.handle_global(1, "wl_compositor", 4);
    let first = s.handle_global(10, "wl_output", 3);
    assert!(first.is_some());
    let second = s.handle_global(20, "wl_output", 3);
    assert!(second.is_none());
    s.handle_global(3, "wl_shm", 1);
    s.handle_global(4, "zwlr_screencopy_manager_v1", 3);
    assert_eq!(s.registry.output, Some(10));
    let req = s.start_capture().unwrap();
    assert_eq!(req.output, 10);
    assert!(!req.overlay_cursor);
}

#[test]
fn duplicate_non_output_role_last_wins() {
    let mut s = Session::new();
    s.handle_global(1, "wl_compositor", 4);
    s.handle_global(5, "wl_compositor", 4);
    assert_eq!(s.registry.compositor, Some(5));
}

#[test]
fn negotiated_descriptor_matches_offer() {
    let mut s = ready_session();
    let req = s.start_capture().unwrap();
    assert_eq!(req.output, 2);
    assert!(!req.overlay_cursor);
    s.handle_frame_event(FrameEvent::Buffer {
        format: PixelFormat::Argb8888,
        width: 1024,
        height: 768,
        stride: 4096,
    });
    assert_eq!(s.phase, Phase::FormatNegotiated);
    let d = s.finish_negotiation().unwrap();
    assert_eq!(
        d,
        BufferDescriptor {
            format: PixelFormat::Argb8888,
            width: 1024,
            height: 768,
            stride: 4096,
        }
    );
    assert_eq!(d.byte_size(), 3_145_728);
}

#[test]
fn byte_size_is_stride_times_height() {
    let d = BufferDescriptor::new(PixelFormat::Argb8888, 2, 3, 12);
    assert_eq!(d.byte_size(), 36);
    let wide = BufferDescriptor::new(PixelFormat::Xrgb8888, 1920, 1080, 7680);
    assert_eq!(wide.byte_size(), 8_294_400);
}

#[test]
fn no_format_offered_fails_negotiation() {
    let mut s = ready_session();
    s.start_capture().unwrap();
    s.handle_frame_event(FrameEvent::Other);
    assert_eq!(s.phase, Phase::RequestSent);
    let r = s.finish_negotiation();
    assert_eq!(r, Err(SessionError::Negotiation));
    assert_eq!(s.phase, Phase::Failed);
}

#[test]
fn unsupported_format_offer_is_ignored() {
    let mut s = ready_session();
    s.start_capture().unwrap();
    s.handle_frame_event(FrameEvent::Buffer {
        format: PixelFormat::Other(123),
        width: 1024,
        height: 768,
        stride: 4096,
    });
    assert_eq!(s.phase, Phase::RequestSent);
    assert_eq!(s.descriptor, None);
}

#[test]
fn undersized_stride_offer_is_ignored() {
    let mut s = ready_session();
    s.start_capture().unwrap();
    // A stride shorter than one row of pixels cannot be backed.
    s.handle_frame_event(FrameEvent::Buffer {
        format: PixelFormat::Argb8888,
        width: 1024,
        height: 768,
        stride: 4095,
    });
    assert_eq!(s.phase, Phase::RequestSent);
}

#[test]
fn oversized_geometry_offer_is_ignored() {
    let mut s = ready_session();
    s.start_capture().unwrap();
    // stride * height exceeds the pool-size field's signed 32-bit range.
    s.handle_frame_event(FrameEvent::Buffer {
        format: PixelFormat::Argb8888,
        width: 1,
        height: 2,
        stride: 2_147_483_647,
    });
    assert_eq!(s.phase, Phase::RequestSent);
}

#[test]
fn buffer_offer_outside_request_is_ignored() {
    let mut s = ready_session();
    s.handle_frame_event(FrameEvent::Buffer {
        format: PixelFormat::Argb8888,
        width: 1024,
        height: 768,
        stride: 4096,
    });
    assert_eq!(s.phase, Phase::Idle);
    assert_eq!(s.descriptor, None);
}

#[test]
fn attach_with_exact_capacity_succeeds() {
    let mut s = negotiated_session();
    assert_eq!(s.attach(3_145_728), Ok(()));
    assert_eq!(s.phase, Phase::BufferAttached);
}

#[test]
fn under_allocation_is_rejected() {
    let mut s = negotiated_session();
    let r = s.attach(3_145_727);
    assert_eq!(r, Err(SessionError::Resource));
    assert_eq!(s.phase, Phase::Failed);
}

#[test]
fn over_allocation_is_rejected() {
    let mut s = negotiated_session();
    let r = s.attach(3_145_729);
    assert_eq!(r, Err(SessionError::Resource));
    assert_eq!(s.phase, Phase::Failed);
}

#[test]
fn early_attach_is_rejected() {
    let mut s = Session::new();
    let before = s;
    assert_eq!(s.attach(64), Err(SessionError::OutOfOrder));
    assert_eq!(s, before);

    let mut r = ready_session();
    r.start_capture().unwrap();
    let before = r;
    assert_eq!(r.attach(64), Err(SessionError::OutOfOrder));
    assert_eq!(r, before);
}

#[test]
fn commit_before_attach_is_rejected() {
    let mut s = negotiated_session();
    let before = s;
    assert_eq!(s.commit(), Err(SessionError::OutOfOrder));
    assert_eq!(s, before);
}

#[test]
fn commit_then_recommit() {
    let mut s = negotiated_session();
    s.attach(3_145_728).unwrap();
    assert_eq!(s.commit(), Ok(()));
    assert_eq!(s.phase, Phase::Presenting);
    assert_eq!(s.commit(), Ok(()));
    assert_eq!(s.phase, Phase::Presenting);
}

#[test]
fn transport_failure_is_fatal_from_any_phase() {
    let mut s = negotiated_session();
    assert_eq!(s.observe_transport(true), Ok(()));
    assert_eq!(s.phase, Phase::FormatNegotiated);
    assert_eq!(s.observe_transport(false), Err(SessionError::Transport));
    assert_eq!(s.phase, Phase::Failed);
}

#[test]
fn empty_drain_changes_nothing() {
    let mut s = negotiated_session();
    let before = s;
    let none: Vec<QueueEvent> = Vec::new();
    let binds = s.drain_events(&none);
    assert!(binds.is_empty());
    assert_eq!(s, before);
    let binds = s.drain_events(&none);
    assert!(binds.is_empty());
    assert_eq!(s, before);
}

#[test]
fn drain_produces_binds_in_order() {
    let mut s = Session::new();
    let events = vec![
        global(1, "wl_compositor", 4),
        QueueEvent::Ignored,
        global(2, "wl_output", 3),
        global(5, "wl_seat", 1),
        global(6, "wl_output", 3),
        global(3, "wl_shm", 1),
        QueueEvent::Frame(FrameEvent::Other),
        global(4, "zwlr_screencopy_manager_v1", 3),
    ];
    let binds = s.drain_events(&events);
    let roles: Vec<Role> = binds.iter().map(|b| b.role).collect();
    assert_eq!(
        roles,
        vec![Role::Compositor, Role::Output, Role::Shm, Role::ScreencopyManager]
    );
    assert_eq!(binds[1].name, 2);
    assert_eq!(binds[1].version, 3);
    assert!(s.is_ready());
    assert_eq!(s.registry.output, Some(2));
}
