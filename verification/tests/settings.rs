use rutabaga_gfx::{
    RutabagaBuilder, RutabagaComponentType, RutabagaFence, RutabagaHandler,
    RUTABAGA_CHANNEL_TYPE_WAYLAND,
};
use std::path::PathBuf;
use virtio_gpu::config::{
    host_channels, virgl_options, HostEnvironment, CAPSETS_CROSS_DOMAIN, CAPSETS_DRM,
    CAPSETS_VENUS, CAPSETS_VIRGL, CHANNEL_TYPE_PW, CHANNEL_TYPE_WAYLAND, CHANNEL_TYPE_X11,
    VIRGLRENDERER_NO_VIRGL,
};
use virtio_gpu::contexts::{CAPSET_CROSS_DOMAIN, CONTEXT_INIT_CAPSET_ID_MASK};
use virtio_gpu::device::VirtioGpu;
use virtio_gpu::protocol::GpuResponse;
use virtio_gpu::resource::DisplayInfo;
use vm_memory::{GuestAddress, GuestMemoryMmap};

fn empty() -> HostEnvironment {
    HostEnvironment {
        xdg_runtime_dir: None,
        wayland_display: None,
        display: None,
        pipewire_runtime_dir: None,
        userprofile: None,
        pipewire_remote: None,
    }
}

fn text(value: &str) -> Option<String> {
    Some(value.to_string())
}

fn channels(env: &HostEnvironment, linux: bool) -> Vec<(u32, PathBuf)> {
    host_channels(env, linux).into_iter().map(|c| (c.channel_type, c.base_channel)).collect()
}

fn path(value: &str) -> PathBuf {
    PathBuf::from(value)
}

#[test]
fn numbers_are_those_of_the_renderer() {
    assert_eq!(CHANNEL_TYPE_WAYLAND, RUTABAGA_CHANNEL_TYPE_WAYLAND);
    assert_eq!(CAPSETS_VENUS, 1 << rutabaga_gfx::RUTABAGA_CAPSET_VENUS);
    assert_eq!(CAPSETS_CROSS_DOMAIN, 1 << rutabaga_gfx::RUTABAGA_CAPSET_CROSS_DOMAIN);
    assert_eq!(CAPSETS_DRM, 1 << rutabaga_gfx::RUTABAGA_CAPSET_DRM);
    let virgl = 1 << rutabaga_gfx::RUTABAGA_CAPSET_VIRGL;
    let virgl2 = 1 << rutabaga_gfx::RUTABAGA_CAPSET_VIRGL2;
    assert_eq!(CAPSETS_VIRGL, virgl | virgl2);
    assert_eq!(VIRGLRENDERER_NO_VIRGL, 1 << 7);
    assert_eq!(CAPSET_CROSS_DOMAIN, rutabaga_gfx::RUTABAGA_CAPSET_CROSS_DOMAIN);
    let mask = rutabaga_gfx::RUTABAGA_CONTEXT_INIT_CAPSET_ID_MASK;
    assert_eq!(CONTEXT_INIT_CAPSET_ID_MASK, mask);
}

#[test]
fn defaults_without_environment() {
    let expected = vec![(CHANNEL_TYPE_WAYLAND, path("/run/user/1000/wayland-0"))];
    assert_eq!(channels(&empty(), true), expected);
    assert_eq!(channels(&empty(), false), expected);
}

#[test]
fn all_sockets_in_order() {
    let env = HostEnvironment {
        xdg_runtime_dir: text("/run/user/7"),
        wayland_display: text("wl"),
        display: text(":1.0"),
        pipewire_runtime_dir: text("/pw"),
        userprofile: text("/home"),
        pipewire_remote: text("remote"),
    };
    assert_eq!(
        channels(&env, true),
        vec![
            (CHANNEL_TYPE_WAYLAND, path("/run/user/7/wl")),
            (CHANNEL_TYPE_X11, path("/tmp/.X11-unix/X1.0")),
            (CHANNEL_TYPE_PW, path("/pw/remote")),
        ]
    );
    assert_eq!(
        channels(&env, false),
        vec![(CHANNEL_TYPE_WAYLAND, path("/run/user/7/wl"))]
    );
}

#[test]
fn absolute_pipewire_remote_replaces_the_directory() {
    let mut env = empty();
    env.pipewire_runtime_dir = text("/pw");
    env.pipewire_remote = text("/elsewhere/socket");
    assert_eq!(channels(&env, true)[1], (CHANNEL_TYPE_PW, path("/elsewhere/socket")));
}

#[test]
fn pipewire_directory_falls_back() {
    let mut env = empty();
    env.userprofile = text("/profile");
    assert_eq!(channels(&env, true)[1], (CHANNEL_TYPE_PW, path("/profile/pipewire-0")));
    env.xdg_runtime_dir = text("/run");
    assert_eq!(channels(&env, true)[1], (CHANNEL_TYPE_PW, path("/run/pipewire-0")));
}

#[test]
fn remote_x_display_is_left_out() {
    let mut env = empty();
    env.display = text("host:0");
    assert_eq!(channels(&env, true).len(), 1);
    env.display = text("");
    assert_eq!(channels(&env, true).len(), 1);
    env.display = text(":");
    assert_eq!(channels(&env, true)[1].1, path("/tmp/.X11-unix/X"));
    env.display = text(":\u{e9}1");
    assert_eq!(channels(&env, true)[1].1, path("/tmp/.X11-unix/X\u{e9}1"));
}

#[test]
fn options_follow_the_flags() {
    let none = virgl_options(0);
    assert!(!none.egl && !none.glx && !none.surfaceless && !none.gles);
    assert!(!none.external_blob && !none.vulkan && !none.render_server);
    assert_eq!(none.capsets, 0);
    let all = virgl_options(u32::MAX);
    assert!(all.egl && all.glx && all.surfaceless && all.gles);
    assert!(all.external_blob && all.vulkan && all.render_server);
    assert_eq!(all.capsets, CAPSETS_CROSS_DOMAIN | CAPSETS_VENUS | CAPSETS_DRM);
    let some = virgl_options(1 | 1 << 4 | 1 << 6);
    assert!(some.egl && some.gles && some.vulkan);
    assert!(!some.glx && !some.surfaceless && !some.external_blob && !some.render_server);
    assert_eq!(some.capsets, 0);
    assert_eq!(virgl_options(1 << 7).capsets, CAPSETS_CROSS_DOMAIN);
    assert_eq!(virgl_options(1 << 7 | 1 << 10).capsets, CAPSETS_CROSS_DOMAIN | CAPSETS_DRM);
    let with_virgl = CAPSETS_CROSS_DOMAIN | CAPSETS_VIRGL | CAPSETS_DRM;
    assert_eq!(virgl_options(1 << 10).capsets, with_virgl);
    assert_eq!(virgl_options(1 << 10 | 1 << 6).capsets, with_virgl | CAPSETS_VENUS);
}

#[test]
fn fallback_renderer_needs_no_driver() {
    let handler = RutabagaHandler::new(|_: RutabagaFence| {});
    assert!(VirtioGpu::create_fallback_rutabaga(&handler).is_some());
    let flags = VIRGLRENDERER_NO_VIRGL;
    assert!(VirtioGpu::create_rutabaga(flags, &empty(), true, &handler).is_some());
}

#[test]
fn driverless_renderer_can_be_had_with_any_other_flag() {
    let handler = RutabagaHandler::new(|_: RutabagaFence| {});
    let drivers = 1 << 6 | 1 << 10;
    let flags = u32::MAX & !drivers;
    assert_eq!(virgl_options(flags).capsets, CAPSETS_CROSS_DOMAIN);
    assert!(VirtioGpu::create_rutabaga(flags, &empty(), false, &handler).is_some());
}

#[test]
fn requested_renderer_comes_before_the_fallback() {
    let handler = RutabagaHandler::new(|_: RutabagaFence| {});
    let software = || {
        RutabagaBuilder::new(RutabagaComponentType::Rutabaga2D, 0)
            .build(RutabagaHandler::new(|_| {}), None)
            .unwrap()
    };
    // The software renderer has no capability sets, the fallback has one.
    let kept = VirtioGpu::or_fallback_rutabaga(Some(software()), &handler).unwrap();
    assert_eq!(kept.get_num_capsets(), 0);
    let fallback = VirtioGpu::or_fallback_rutabaga(None, &handler).unwrap();
    assert_eq!(fallback.get_num_capsets(), 1);
}

#[test]
fn device_is_made_with_some_renderer() {
    let mem = GuestMemoryMmap::from_ranges(&[(GuestAddress(0), 0x1000)]).unwrap();
    let handler = RutabagaHandler::new(|_: RutabagaFence| {});
    let displays = vec![DisplayInfo { width: 640, height: 480, edid: vec![] }];
    let gpu = VirtioGpu::new(mem, 0, &empty(), true, &handler, displays).unwrap();
    match gpu.display_info() {
        Ok(GpuResponse::OkDisplayInfo(info)) => assert_eq!(info, vec![(640, 480, true)]),
        _ => panic!("no display info"),
    }
    // The cross-domain capability is there in any case.
    assert!(matches!(gpu.get_capset_info(0), Ok(GpuResponse::OkCapsetInfo { .. })));
}

#[test]
fn paths_are_joined_as_the_host_joins_them() {
    let cases = [("/pw", "remote"), ("/pw/", "remote"), ("", "remote"), ("/pw", ""), ("pw", "/r")];
    for (dir, entry) in cases {
        let mut env = empty();
        env.pipewire_runtime_dir = text(dir);
        env.pipewire_remote = text(entry);
        let joined = path(dir).join(entry);
        let channel = &channels(&env, true)[1].1;
        assert_eq!(channel.to_str(), joined.to_str());
    }
}

#[test]
fn channels_reach_the_renderer() {
    let mem = GuestMemoryMmap::from_ranges(&[(GuestAddress(0), 0x1000)]).unwrap();
    let handler = RutabagaHandler::new(|_: RutabagaFence| {});
    let mut env = empty();
    env.pipewire_runtime_dir = text("/pw");
    let flags = VIRGLRENDERER_NO_VIRGL;
    let capset = |linux| {
        let gpu = VirtioGpu::new(mem.clone(), flags, &env, linux, &handler, vec![]).unwrap();
        match gpu.get_capset(5, 0) {
            Ok(GpuResponse::OkCapset(capset)) => capset,
            _ => panic!("no capability set"),
        }
    };
    // The version, and behind it a bit for the type of the last channel.
    assert_eq!(capset(true)[..8], [1, 0, 0, 0, 0, 0, 1, 0]);
    assert_eq!(capset(false)[..8], [1, 0, 0, 0, 2, 0, 0, 0]);
}
