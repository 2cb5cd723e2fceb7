//! How the renderer is set up: its flags, and the sockets of the host's desktop
//! that its contexts may reach.

use crate::device::{display_view, VirtioGpu};
use crate::model::new_state;
use crate::renderer::{
    channel_types_fit, renderer_calls, renderer_channel_types, renderer_contexts,
    renderer_cross_default, renderer_is_software, renderer_resources, RendererCall,
    RendererResource,
};
use crate::resource::DisplayInfo;
use rutabaga_gfx::{
    Rutabaga, RutabagaBuilder, RutabagaChannel, RutabagaComponentType, RutabagaFence,
    RutabagaHandler,
};
use vm_memory::GuestMemoryMmap;
use vstd::prelude::*;
use vstd::string::{StrSliceExecFns, StringExecFns};

verus! {

/// Flag of the virgl renderer: contexts come from EGL.
pub const VIRGLRENDERER_USE_EGL: u32 = 0x1;

/// Flag of the virgl renderer: contexts come from GLX.
pub const VIRGLRENDERER_USE_GLX: u32 = 0x4;

/// Flag of the virgl renderer: no surfaces.
pub const VIRGLRENDERER_USE_SURFACELESS: u32 = 0x8;

/// Flag of the virgl renderer: OpenGL ES.
pub const VIRGLRENDERER_USE_GLES: u32 = 0x10;

/// Flag of the virgl renderer: blobs can be shared with other processes.
pub const VIRGLRENDERER_USE_EXTERNAL_BLOB: u32 = 0x20;

/// Flag of the virgl renderer: Vulkan contexts.
pub const VIRGLRENDERER_VENUS: u32 = 0x40;

/// Flag of the virgl renderer: no virgl contexts, which no driver has to back.
pub const VIRGLRENDERER_NO_VIRGL: u32 = 0x80;

/// Flag of the virgl renderer: rendering in another process.
pub const VIRGLRENDERER_RENDER_SERVER: u32 = 0x200;

/// Flag of the virgl renderer: contexts of the native driver.
pub const VIRGLRENDERER_DRM: u32 = 0x400;

/// The set of the cross-domain capability alone.
pub const CAPSETS_CROSS_DOMAIN: u64 = 0x20;

/// The set of the Vulkan capability alone.
pub const CAPSETS_VENUS: u64 = 0x10;

/// The set of the capabilities of virgl contexts.
pub const CAPSETS_VIRGL: u64 = 0x6;

/// The set of the native driver's capability alone.
pub const CAPSETS_DRM: u64 = 0x40;

/// Channel type of a Wayland socket.
pub const CHANNEL_TYPE_WAYLAND: u32 = 0x1;

/// Channel type of a PipeWire socket.
pub const CHANNEL_TYPE_PW: u32 = 0x10;

/// Channel type of an X11 socket.
pub const CHANNEL_TYPE_X11: u32 = 0x11;

/// A socket of the host as the renderer takes it, carried to it unopened.
#[verifier::external_type_specification]
#[verifier::external_body]
pub struct ExRutabagaChannel(rutabaga_gfx::RutabagaChannel);

/// A fence as the renderer reports it, never opened here.
#[verifier::external_type_specification]
#[verifier::external_body]
pub struct ExRutabagaFence(rutabaga_gfx::RutabagaFence);

/// Who is told about fences, handed to the renderer unopened.
#[verifier::external_type_specification]
#[verifier::external_body]
#[verifier::reject_recursive_types(S)]
pub struct ExRutabagaHandler<S>(rutabaga_gfx::RutabagaHandler<S>);

/// The variables of the host's environment that name its sockets.
#[derive(Debug)]
pub struct HostEnvironment {
    pub xdg_runtime_dir: Option<String>,
    pub wayland_display: Option<String>,
    pub display: Option<String>,
    pub pipewire_runtime_dir: Option<String>,
    pub userprofile: Option<String>,
    pub pipewire_remote: Option<String>,
}

/// A socket of the host: its type and its path.
#[verifier::ext_equal]
pub struct Channel {
    pub channel_type: u32,
    pub path: Seq<char>,
}

/// What the renderer is asked for. Where `capsets` is 0 it offers what it has.
#[derive(Clone, Copy, Debug, PartialEq, Eq, Structural)]
pub struct VirglOptions {
    pub egl: bool,
    pub glx: bool,
    pub surfaceless: bool,
    pub gles: bool,
    pub external_blob: bool,
    pub vulkan: bool,
    pub render_server: bool,
    pub capsets: u64,
}

/// How a renderer is built: what it is asked for, the sockets that it may reach,
/// and who is told about its fences.
pub struct RendererSetup {
    pub options: VirglOptions,
    pub channels: Option<Seq<Channel>>,
    pub handler: RutabagaHandler<RutabagaFence>,
}

/// The type and the path of a channel of the renderer.
pub uninterp spec fn channel_of(channel: RutabagaChannel) -> Channel;

/// How a renderer was built.
pub uninterp spec fn renderer_setup(renderer: Rutabaga) -> RendererSetup;

/// `setup` is one with which the host has failed to build a renderer.
pub uninterp spec fn build_refused(setup: RendererSetup) -> bool;

/// Whether `flag` is among `flags`.
pub open spec fn has_flag(flags: u32, flag: u32) -> bool {
    flags & flag != 0
}

/// What the renderer is asked for by `flags`, as far as its builder has a setting
/// for them. It offers contexts of the native driver, and leaves out virgl
/// contexts, only where it is given the set of capabilities to offer.
pub open spec fn options_of(flags: u32) -> VirglOptions {
    VirglOptions {
        egl: has_flag(flags, VIRGLRENDERER_USE_EGL),
        glx: has_flag(flags, VIRGLRENDERER_USE_GLX),
        surfaceless: has_flag(flags, VIRGLRENDERER_USE_SURFACELESS),
        gles: has_flag(flags, VIRGLRENDERER_USE_GLES),
        external_blob: has_flag(flags, VIRGLRENDERER_USE_EXTERNAL_BLOB),
        vulkan: has_flag(flags, VIRGLRENDERER_VENUS),
        render_server: has_flag(flags, VIRGLRENDERER_RENDER_SERVER),
        capsets: if has_flag(flags, VIRGLRENDERER_NO_VIRGL) || has_flag(flags, VIRGLRENDERER_DRM) {
            (CAPSETS_CROSS_DOMAIN + (if has_flag(flags, VIRGLRENDERER_NO_VIRGL) {
                0
            } else {
                CAPSETS_VIRGL as int
            }) + (if has_flag(flags, VIRGLRENDERER_VENUS) {
                CAPSETS_VENUS as int
            } else {
                0
            }) + (if has_flag(flags, VIRGLRENDERER_DRM) {
                CAPSETS_DRM as int
            } else {
                0
            })) as u64
        } else {
            0
        },
    }
}

/// Whether a renderer needs no driver of the host: the cross-domain capability
/// is all that it is asked for.
pub open spec fn driverless(options: VirglOptions) -> bool {
    options.capsets == CAPSETS_CROSS_DOMAIN
}

/// The characters of a string, or `default` if there is none.
pub open spec fn text_or(value: Option<String>, default: Seq<char>) -> Seq<char> {
    match value {
        Some(value) => value@,
        None => default,
    }
}

/// The Wayland socket: the display's name in the runtime directory.
pub open spec fn wayland_channel(env: HostEnvironment) -> Channel {
    Channel {
        channel_type: CHANNEL_TYPE_WAYLAND,
        path: text_or(env.xdg_runtime_dir, "/run/user/1000"@) + "/"@ + text_or(
            env.wayland_display,
            "wayland-0"@,
        ),
    }
}

/// The socket of a local X display, whose name starts with a colon.
pub open spec fn x11_channel(env: HostEnvironment) -> Option<Channel> {
    match env.display {
        Some(display) => if display@.len() > 0 && display@[0] == ':' {
            Some(
                Channel {
                    channel_type: CHANNEL_TYPE_X11,
                    path: "/tmp/.X11-unix/X"@ + display@.subrange(1, display@.len() as int),
                },
            )
        } else {
            None
        },
        None => None,
    }
}

/// The directory of the PipeWire socket: the first of three that is set.
pub open spec fn pipewire_dir(env: HostEnvironment) -> Option<String> {
    match env.pipewire_runtime_dir {
        Some(dir) => Some(dir),
        None => match env.xdg_runtime_dir {
            Some(dir) => Some(dir),
            None => env.userprofile,
        },
    }
}

/// The path of `entry` in directory `dir`, as Linux writes it: an absolute
/// `entry` stands for itself.
pub open spec fn joined(dir: Seq<char>, entry: Seq<char>) -> Seq<char> {
    if entry.len() > 0 && entry[0] == '/' {
        entry
    } else if dir.len() == 0 || dir.last() == '/' {
        dir + entry
    } else {
        dir + "/"@ + entry
    }
}

/// The PipeWire socket.
pub open spec fn pipewire_channel(env: HostEnvironment) -> Option<Channel> {
    match pipewire_dir(env) {
        Some(dir) => Some(
            Channel {
                channel_type: CHANNEL_TYPE_PW,
                path: joined(dir@, text_or(env.pipewire_remote, "pipewire-0"@)),
            },
        ),
        None => None,
    }
}

/// `channel` as a sequence of at most one.
pub open spec fn optional(channel: Option<Channel>) -> Seq<Channel> {
    match channel {
        Some(channel) => seq![channel],
        None => seq![],
    }
}

/// The sockets that the renderer may reach. A host that is not Linux has the
/// Wayland socket only.
pub open spec fn channels_of(env: HostEnvironment, linux: bool) -> Seq<Channel> {
    if linux {
        seq![wayland_channel(env)] + optional(x11_channel(env)) + optional(pipewire_channel(env))
    } else {
        seq![wayland_channel(env)]
    }
}

/// The sockets that a list of channels was made for.
pub open spec fn channels_made(channels: Seq<RutabagaChannel>) -> Seq<Channel> {
    channels.map_values(|channel: RutabagaChannel| channel_of(channel))
}

/// How the renderer is built with the flags that were asked for.
pub open spec fn requested_setup(
    virgl_flags: u32,
    env: HostEnvironment,
    linux: bool,
    handler: RutabagaHandler<RutabagaFence>,
) -> RendererSetup {
    RendererSetup {
        options: options_of(virgl_flags),
        channels: Some(channels_of(env, linux)),
        handler,
    }
}

/// How the renderer is built where that failed: with what needs no driver.
pub open spec fn fallback_setup(handler: RutabagaHandler<RutabagaFence>) -> RendererSetup {
    RendererSetup { options: options_of(VIRGLRENDERER_NO_VIRGL), channels: None, handler }
}

/// A renderer on which nothing has been done, and which does not render in
/// software.
pub open spec fn untouched(renderer: Rutabaga) -> bool {
    &&& renderer_resources(renderer) == Map::<u32, RendererResource>::empty()
    &&& renderer_contexts(renderer) == Set::<u32>::empty()
    &&& renderer_calls(renderer) == Seq::<RendererCall>::empty()
    &&& !renderer_is_software(renderer)
}

/// The types of the sockets of a setup.
pub open spec fn channel_types(channels: Option<Seq<Channel>>) -> Seq<u32> {
    match channels {
        Some(channels) => channels.map_values(|channel: Channel| channel.channel_type),
        None => Seq::empty(),
    }
}

/// `renderer` was built as `setup` says, and nothing has been done on it since.
pub open spec fn built(renderer: Rutabaga, setup: RendererSetup) -> bool {
    &&& untouched(renderer)
    &&& renderer_setup(renderer) == setup
    &&& renderer_cross_default(renderer) == driverless(setup.options)
    &&& renderer_channel_types(renderer) == channel_types(setup.channels)
}

/// The sets of capabilities that the renderer is asked for.
pub open spec fn known_capsets(capsets: u64) -> bool {
    ||| capsets == 0
    ||| capsets == 0x20
    ||| capsets == 0x30
    ||| capsets == 0x60
    ||| capsets == 0x70
    ||| capsets == 0x66
    ||| capsets == 0x76
}

/// Makes a `RutabagaChannel`, a pair of a type and a path.
#[verifier::external_body]
fn make_channel(channel_type: u32, path: String) -> (result: RutabagaChannel)
    ensures
        channel_of(result) == (Channel { channel_type, path: path@ }),
{
    RutabagaChannel { base_channel: path.into(), channel_type }
}

/// How a renderer is built with the given channels.
pub open spec fn setup_of(
    options: VirglOptions,
    channels: Option<Vec<RutabagaChannel>>,
    handler: RutabagaHandler<RutabagaFence>,
) -> RendererSetup {
    RendererSetup {
        options,
        channels: match channels {
            Some(channels) => Some(channels_made(channels@)),
            None => None,
        },
        handler,
    }
}

/// Calls `RutabagaBuilder::build` with the virgl renderer as the default
/// component. For a set of capabilities the builder picks the component that
/// serves them: for the cross-domain capability alone that one needs no driver
/// and is always built, as the default. Whether another can be had is up to the
/// drivers of the host. A renderer that is built holds neither resources nor
/// contexts, and keeps its channels.
#[verifier::external_body]
fn build_renderer(
    options: VirglOptions,
    channels: Option<Vec<RutabagaChannel>>,
    handler: &RutabagaHandler<RutabagaFence>,
) -> (result: Option<Rutabaga>)
    requires
        known_capsets(options.capsets),
    ensures
        match result {
            Some(renderer) => {
                let setup = setup_of(options, channels, *handler);
                &&& untouched(renderer)
                &&& renderer_setup(renderer) == setup
                &&& renderer_cross_default(renderer) == driverless(options)
                &&& renderer_channel_types(renderer) == channel_types(setup.channels)
            },
            None => build_refused(setup_of(options, channels, *handler)),
        },
        driverless(options) ==> result is Some,
{
    RutabagaBuilder::new(RutabagaComponentType::VirglRenderer, options.capsets)
        .set_use_egl(options.egl)
        .set_use_glx(options.glx)
        .set_use_surfaceless(options.surfaceless)
        .set_use_gles(options.gles)
        .set_use_external_blob(options.external_blob)
        .set_use_vulkan(options.vulkan)
        .set_use_render_server(options.render_server)
        .set_rutabaga_channels(channels)
        .build(handler.clone(), None)
        .ok()
}

/// What the renderer is asked for by `flags`.
pub fn virgl_options(flags: u32) -> (result: VirglOptions)
    ensures
        result == options_of(flags),
        known_capsets(result.capsets),
{
    let vulkan = flags & VIRGLRENDERER_VENUS != 0;
    let virgl = flags & VIRGLRENDERER_NO_VIRGL == 0;
    let drm = flags & VIRGLRENDERER_DRM != 0;
    let mut capsets: u64 = 0;
    if !virgl || drm {
        capsets = CAPSETS_CROSS_DOMAIN;
        if virgl {
            capsets = capsets + CAPSETS_VIRGL;
        }
        if vulkan {
            capsets = capsets + CAPSETS_VENUS;
        }
        if drm {
            capsets = capsets + CAPSETS_DRM;
        }
    }
    VirglOptions {
        egl: flags & VIRGLRENDERER_USE_EGL != 0,
        glx: flags & VIRGLRENDERER_USE_GLX != 0,
        surfaceless: flags & VIRGLRENDERER_USE_SURFACELESS != 0,
        gles: flags & VIRGLRENDERER_USE_GLES != 0,
        external_blob: flags & VIRGLRENDERER_USE_EXTERNAL_BLOB != 0,
        vulkan,
        render_server: flags & VIRGLRENDERER_RENDER_SERVER != 0,
        capsets,
    }
}

/// A string, or `default` if there is none.
fn or_default(value: &Option<String>, default: &str) -> (result: String)
    ensures
        result@ == text_or(*value, default@),
{
    match value {
        Some(value) => value.clone(),
        None => String::from_str(default),
    }
}

/// The path of `entry` in directory `dir`.
fn join_path(dir: String, entry: String) -> (result: String)
    ensures
        result@ == joined(dir@, entry@),
{
    let dir_len: usize = dir.as_str().unicode_len();
    if entry.as_str().unicode_len() > 0 && entry.as_str().get_char(0) == '/' {
        entry
    } else if dir_len == 0 || dir.as_str().get_char(dir_len - 1) == '/' {
        dir.concat(entry.as_str())
    } else {
        dir.concat("/").concat(entry.as_str())
    }
}

/// The sockets that the renderer may reach.
pub fn host_channels(env: &HostEnvironment, linux: bool) -> (result: Vec<RutabagaChannel>)
    ensures
        channels_made(result@) == channels_of(*env, linux),
{
    let path = or_default(&env.xdg_runtime_dir, "/run/user/1000").concat("/").concat(
        or_default(&env.wayland_display, "wayland-0").as_str(),
    );
    let mut channels: Vec<RutabagaChannel> = Vec::new();
    channels.push(make_channel(CHANNEL_TYPE_WAYLAND, path));
    if linux {
        if let Some(display) = &env.display {
            let display = display.as_str();
            let len: usize = display.unicode_len();
            if len > 0 && display.get_char(0) == ':' {
                let path = String::from_str("/tmp/.X11-unix/X").concat(
                    display.substring_char(1, len),
                );
                channels.push(make_channel(CHANNEL_TYPE_X11, path));
            }
        }
        assert(channels_made(channels@) =~= seq![wayland_channel(*env)] + optional(
            x11_channel(*env),
        ));
        let dir = match &env.pipewire_runtime_dir {
            Some(dir) => Some(dir.clone()),
            None => match &env.xdg_runtime_dir {
                Some(dir) => Some(dir.clone()),
                None => env.userprofile.clone(),
            },
        };
        if let Some(dir) = dir {
            let path = join_path(dir, or_default(&env.pipewire_remote, "pipewire-0"));
            channels.push(make_channel(CHANNEL_TYPE_PW, path));
        }
    }
    assert(channels_made(channels@) =~= channels_of(*env, linux));
    channels
}

impl VirtioGpu {
    /// A renderer with the flags that were asked for, if the host can have one.
    /// One that needs no driver can always be had. `handler` is told of the
    /// fences that complete.
    pub fn create_rutabaga(
        virgl_flags: u32,
        env: &HostEnvironment,
        linux: bool,
        handler: &RutabagaHandler<RutabagaFence>,
    ) -> (result: Option<Rutabaga>)
        ensures
            match result {
                Some(renderer) => {
                    &&& built(renderer, requested_setup(virgl_flags, *env, linux, *handler))
                    &&& channel_types_fit(renderer)
                },
                None => build_refused(requested_setup(virgl_flags, *env, linux, *handler)),
            },
            driverless(options_of(virgl_flags)) ==> result is Some,
    {
        proof {
            lemma_channel_types_fit(*env, linux);
        }
        build_renderer(virgl_options(virgl_flags), Some(host_channels(env, linux)), handler)
    }

    /// A renderer that needs no driver, which can always be had.
    pub fn create_fallback_rutabaga(
        handler: &RutabagaHandler<RutabagaFence>,
    ) -> (result: Option<Rutabaga>)
        ensures
            result matches Some(renderer) && built(renderer, fallback_setup(*handler))
                && channel_types_fit(renderer),
    {
        proof {
            lemma_fallback_is_driverless();
        }
        build_renderer(virgl_options(VIRGLRENDERER_NO_VIRGL), None, handler)
    }

    /// The renderer that was asked for where there is one, and else one that
    /// needs no driver.
    pub fn or_fallback_rutabaga(
        requested: Option<Rutabaga>,
        handler: &RutabagaHandler<RutabagaFence>,
    ) -> (result: Option<Rutabaga>)
        ensures
            match requested {
                Some(renderer) => result == Some(renderer),
                None => result matches Some(renderer) && built(renderer, fallback_setup(*handler))
                    && channel_types_fit(renderer),
            },
    {
        match requested {
            Some(rutabaga) => Some(rutabaga),
            None => VirtioGpu::create_fallback_rutabaga(handler),
        }
    }

    /// A device without resources that shows nothing, with the renderer that was
    /// asked for or else with one that needs no driver. There is always one of
    /// the two, and the first wherever it needs no driver either.
    pub fn new(
        mem: GuestMemoryMmap,
        virgl_flags: u32,
        env: &HostEnvironment,
        linux: bool,
        handler: &RutabagaHandler<RutabagaFence>,
        displays: Vec<DisplayInfo>,
    ) -> (result: Option<VirtioGpu>)
        ensures
            result matches Some(gpu) && {
                &&& gpu@ == new_state(gpu@.renderer, display_view(displays@), mem)
                &&& gpu.wf()
                &&& {
                    ||| built(
                        gpu@.renderer,
                        requested_setup(virgl_flags, *env, linux, *handler),
                    )
                    ||| {
                        &&& !driverless(options_of(virgl_flags))
                        &&& build_refused(requested_setup(virgl_flags, *env, linux, *handler))
                        &&& built(gpu@.renderer, fallback_setup(*handler))
                    }
                }
            },
    {
        let requested = VirtioGpu::create_rutabaga(virgl_flags, env, linux, handler);
        let cross_default = match &requested {
            Some(_) => virgl_options(virgl_flags).capsets == CAPSETS_CROSS_DOMAIN,
            None => true,
        };
        proof {
            lemma_fallback_is_driverless();
        }
        match VirtioGpu::or_fallback_rutabaga(requested, handler) {
            Some(rutabaga) => Some(
                VirtioGpu::with_renderer(rutabaga, cross_default, displays, mem),
            ),
            None => None,
        }
    }
}

/// The types of the host's sockets are bits of one word.
proof fn lemma_channel_types_fit(env: HostEnvironment, linux: bool)
    ensures
        forall|i: int|
            0 <= i < channel_types(Some(channels_of(env, linux))).len()
                ==> #[trigger] channel_types(Some(channels_of(env, linux)))[i] < 32,
{
}

/// The fallback asks for nothing that needs a driver.
proof fn lemma_fallback_is_driverless()
    ensures
        driverless(options_of(VIRGLRENDERER_NO_VIRGL)),
{
    assert(0x80u32 & 0x80u32 != 0 && 0x80u32 & 0x40u32 == 0 && 0x80u32 & 0x400u32 == 0)
        by (bit_vector);
}

/// `mask` where `on`, and else nothing.
pub open spec fn bit_if(on: bool, mask: u32) -> u32 {
    if on {
        mask
    } else {
        0
    }
}

/// Each option is on exactly when its own flag was given: the flags can be told
/// from the options.
pub proof fn law_options_tell_the_flags(flags: u32)
    ensures
        flags & 0x27d == bit_if(options_of(flags).egl, 0x1) | bit_if(options_of(flags).glx, 0x4)
            | bit_if(options_of(flags).surfaceless, 0x8) | bit_if(options_of(flags).gles, 0x10)
            | bit_if(options_of(flags).external_blob, 0x20) | bit_if(
            options_of(flags).vulkan,
            0x40,
        ) | bit_if(options_of(flags).render_server, 0x200),
        options_of(flags).egl == (flags & 0x1 != 0),
        options_of(flags).glx == (flags & 0x4 != 0),
        options_of(flags).surfaceless == (flags & 0x8 != 0),
        options_of(flags).gles == (flags & 0x10 != 0),
        options_of(flags).external_blob == (flags & 0x20 != 0),
        options_of(flags).vulkan == (flags & 0x40 != 0),
        options_of(flags).render_server == (flags & 0x200 != 0),
{
    assert(flags & 0x27d == (if flags & 0x1 != 0 {
        0x1u32
    } else {
        0u32
    }) | (if flags & 0x4 != 0 {
        0x4u32
    } else {
        0u32
    }) | (if flags & 0x8 != 0 {
        0x8u32
    } else {
        0u32
    }) | (if flags & 0x10 != 0 {
        0x10u32
    } else {
        0u32
    }) | (if flags & 0x20 != 0 {
        0x20u32
    } else {
        0u32
    }) | (if flags & 0x40 != 0 {
        0x40u32
    } else {
        0u32
    }) | (if flags & 0x200 != 0 {
        0x200u32
    } else {
        0u32
    })) by (bit_vector);
}

/// Where the renderer is told what to offer, the flags can be told from that too:
/// virgl contexts (0x6) unless they are not wanted, Vulkan contexts (0x10) and
/// contexts of the native driver (0x40) where they are wanted, cross-domain
/// contexts (0x20) in any case, and nothing else. Where neither virgl contexts are
/// unwanted nor contexts of the native driver wanted, it offers what it has.
pub proof fn law_capsets_tell_the_flags(flags: u32)
    ensures
        ({
            let capsets = options_of(flags).capsets;
            if flags & 0x80 == 0 && flags & 0x400 == 0 {
                capsets == 0
            } else {
                &&& capsets & 0x20 == 0x20
                &&& capsets & 0x6 == if flags & 0x80 == 0 {
                    0x6u64
                } else {
                    0
                }
                &&& (capsets & 0x10 != 0) == (flags & 0x40 != 0)
                &&& (capsets & 0x40 != 0) == (flags & 0x400 != 0)
                &&& capsets & 0x76 == capsets
            }
        }),
{
    assert(0x20u64 & 0x20 == 0x20 && 0x20u64 & 0x6 == 0 && 0x20u64 & 0x10 == 0 && 0x20u64 & 0x40
        == 0 && 0x20u64 & 0x76 == 0x20) by (bit_vector);
    assert(0x30u64 & 0x20 == 0x20 && 0x30u64 & 0x6 == 0 && 0x30u64 & 0x10 != 0 && 0x30u64 & 0x40
        == 0 && 0x30u64 & 0x76 == 0x30) by (bit_vector);
    assert(0x60u64 & 0x20 == 0x20 && 0x60u64 & 0x6 == 0 && 0x60u64 & 0x10 == 0 && 0x60u64 & 0x40
        != 0 && 0x60u64 & 0x76 == 0x60) by (bit_vector);
    assert(0x70u64 & 0x20 == 0x20 && 0x70u64 & 0x6 == 0 && 0x70u64 & 0x10 != 0 && 0x70u64 & 0x40
        != 0 && 0x70u64 & 0x76 == 0x70) by (bit_vector);
    assert(0x66u64 & 0x20 == 0x20 && 0x66u64 & 0x6 == 0x6 && 0x66u64 & 0x10 == 0 && 0x66u64 & 0x40
        != 0 && 0x66u64 & 0x76 == 0x66) by (bit_vector);
    assert(0x76u64 & 0x20 == 0x20 && 0x76u64 & 0x6 == 0x6 && 0x76u64 & 0x10 != 0 && 0x76u64 & 0x40
        != 0 && 0x76u64 & 0x76 == 0x76) by (bit_vector);
}

/// A renderer needs no driver exactly where neither virgl contexts nor Vulkan
/// contexts nor contexts of the native driver are asked for.
pub proof fn law_driverless_flags(flags: u32)
    ensures
        driverless(options_of(flags)) <==> flags & 0x80 != 0 && flags & 0x40 == 0 && flags & 0x400
            == 0,
{
}

/// Every host has its Wayland socket first: the name of the display behind the
/// runtime directory and a slash. A host that is not Linux has no other.
pub proof fn law_wayland_socket(
    env: HostEnvironment,
    linux: bool,
    dir: Seq<char>,
    name: Seq<char>,
)
    requires
        match env.xdg_runtime_dir {
            Some(given) => dir == given@,
            None => dir == "/run/user/1000"@,
        },
        match env.wayland_display {
            Some(given) => name == given@,
            None => name == "wayland-0"@,
        },
    ensures
        channels_of(env, linux).len() >= 1,
        channels_of(env, linux)[0].channel_type == 0x1,
        channels_of(env, linux)[0].path == dir.push('/') + name,
        channels_of(env, false).len() == 1,
{
    reveal_strlit("/");
    assert("/"@ =~= seq!['/']);
    assert(dir + "/"@ + name =~= dir.push('/') + name);
}

/// A local X display, `:` and a name, has its socket behind the Wayland socket,
/// and no other display has one.
pub proof fn law_x_socket(env: HostEnvironment, display: Seq<char>, name: Seq<char>)
    requires
        env.display matches Some(given) && given@ == display,
    ensures
        display == seq![':'] + name ==> {
            &&& channels_of(env, true).len() >= 2
            &&& channels_of(env, true)[1].channel_type == 0x11
            &&& channels_of(env, true)[1].path == "/tmp/.X11-unix/X"@ + name
        },
        display.len() == 0 || display[0] != ':' ==> forall|i: int|
            0 <= i < channels_of(env, true).len() ==> (#[trigger] channels_of(
                env,
                true,
            )[i]).channel_type != 0x11,
{
    if display == seq![':'] + name {
        assert(display.subrange(1, display.len() as int) =~= name);
    }
}

/// Without a display there is no X socket.
pub proof fn law_no_x_socket(env: HostEnvironment, i: int)
    requires
        env.display is None,
        0 <= i < channels_of(env, true).len(),
    ensures
        channels_of(env, true)[i].channel_type != 0x11,
{
}

/// The PipeWire socket is the last, in the directory of its own, in the runtime
/// directory where that is not set, and in the profile where neither is.
pub proof fn law_pipewire_socket(env: HostEnvironment, dir: Seq<char>, name: Seq<char>)
    requires
        ({
            ||| env.pipewire_runtime_dir matches Some(given) && given@ == dir
            ||| env.pipewire_runtime_dir is None && (env.xdg_runtime_dir matches Some(given)
                && given@ == dir)
            ||| env.pipewire_runtime_dir is None && env.xdg_runtime_dir is None && (
            env.userprofile matches Some(given) && given@ == dir)
        }),
        match env.pipewire_remote {
            Some(given) => name == given@,
            None => name == "pipewire-0"@,
        },
    ensures
        channels_of(env, true).len() >= 2,
        channels_of(env, true).last().channel_type == 0x10,
        channels_of(env, true).last().path == joined(dir, name),
        channels_of(env, true).len() == if env.display matches Some(display) && display@.len() > 0
            && display@[0] == ':' {
            3int
        } else {
            2
        },
{
}

/// Without any of the three directories there is no PipeWire socket.
pub proof fn law_no_pipewire_socket(env: HostEnvironment, i: int)
    requires
        env.pipewire_runtime_dir is None,
        env.xdg_runtime_dir is None,
        env.userprofile is None,
        0 <= i < channels_of(env, true).len(),
    ensures
        channels_of(env, true)[i].channel_type != 0x10,
        channels_of(env, true).len() == if env.display matches Some(display) && display@.len() > 0
            && display@[0] == ':' {
            2int
        } else {
            1
        },
{
}

/// An entry of a directory has one slash before it, whether the directory is
/// written with one or without; and an entry that is an absolute path, or that
/// has no directory, is its own path.
pub proof fn law_joined_by_one_slash(dir: Seq<char>, entry: Seq<char>)
    ensures
        entry.len() > 0 && entry[0] == '/' ==> joined(dir, entry) == entry,
        joined(Seq::empty(), entry) == entry,
        (entry.len() == 0 || entry[0] != '/') ==> joined(dir.push('/'), entry) == dir.push('/')
            + entry,
        (entry.len() == 0 || entry[0] != '/') && dir.len() > 0 && dir.last() != '/' ==> joined(
            dir,
            entry,
        ) == dir.push('/') + entry,
{
    reveal_strlit("/");
    assert("/"@ =~= seq!['/']);
    assert(dir + "/"@ + entry =~= dir.push('/') + entry);
    assert(Seq::<char>::empty() + entry =~= entry);
}

/// The renderer that is asked for has the sockets of the host, and the one that
/// stands in for it has none and needs no driver. Both tell the same handler of
/// their fences.
pub proof fn law_setups(
    virgl_flags: u32,
    env: HostEnvironment,
    linux: bool,
    handler: RutabagaHandler<RutabagaFence>,
)
    ensures
        requested_setup(virgl_flags, env, linux, handler).options == options_of(virgl_flags),
        requested_setup(virgl_flags, env, linux, handler).channels == Some(channels_of(env, linux)),
        requested_setup(virgl_flags, env, linux, handler).handler == handler,
        fallback_setup(handler).options == (VirglOptions {
            egl: false,
            glx: false,
            surfaceless: false,
            gles: false,
            external_blob: false,
            vulkan: false,
            render_server: false,
            capsets: 0x20,
        }),
        fallback_setup(handler).channels is None,
        fallback_setup(handler).handler == handler,
{
    lemma_fallback_is_driverless();
    law_options_tell_the_flags(0x80);
    assert(0x80u32 & 0x1 == 0 && 0x80u32 & 0x4 == 0 && 0x80u32 & 0x8 == 0 && 0x80u32 & 0x10 == 0
        && 0x80u32 & 0x20 == 0 && 0x80u32 & 0x40 == 0 && 0x80u32 & 0x200 == 0) by (bit_vector);
}

/// A renderer that was just built was built as it was asked for, and holds
/// nothing: neither resources nor contexts, and no call was made on it.
pub proof fn law_built_renderer_is_empty(renderer: Rutabaga, setup: RendererSetup, id: u32)
    requires
        built(renderer, setup),
    ensures
        renderer_setup(renderer) == setup,
        !renderer_resources(renderer).contains_key(id),
        !renderer_contexts(renderer).contains(id),
        renderer_calls(renderer).len() == 0,
        !renderer_is_software(renderer),
        renderer_cross_default(renderer) == (setup.options.capsets == 0x20),
        match setup.channels {
            Some(channels) => {
                &&& renderer_channel_types(renderer).len() == channels.len()
                &&& forall|i: int|
                    0 <= i < channels.len() ==> #[trigger] renderer_channel_types(renderer)[i]
                        == channels[i].channel_type
            },
            None => renderer_channel_types(renderer).len() == 0,
        },
{
}

} // verus!
