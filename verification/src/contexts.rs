//! What the contexts of the renderer can be asked for.
//!
//! A cross-domain context talks to sockets of the host. It reads its commands
//! one after the other and replies in guest memory, in the first range of a
//! resource that it was given for that. All that the device has to know of its
//! contexts for this follows from the calls on the renderer.

use crate::renderer::{
    renderer_called, renderer_calls, renderer_cross_default, RendererCall,
};
use rutabaga_gfx::Rutabaga;
use std::collections::BTreeSet;
use vstd::prelude::*;

verus! {

/// The capability set that cross-domain contexts are created with.
pub const CAPSET_CROSS_DOMAIN: u32 = 5;

/// The part of a context's initial value that says which capability set it is
/// created with.
pub const CONTEXT_INIT_CAPSET_ID_MASK: u32 = 0xff;

/// Whether a context with the given initial value is a cross-domain context, in
/// a renderer where these are the default or not.
pub open spec fn is_cross_domain_init(context_init: u32, cross_default: bool) -> bool {
    cross_default || context_init & CONTEXT_INIT_CAPSET_ID_MASK == CAPSET_CROSS_DOMAIN
}

/// The resources that were given an empty list of guest ranges, and no other
/// since, after `calls`.
pub open spec fn bare_resources(calls: Seq<RendererCall>) -> Set<u32>
    decreases calls.len(),
{
    if calls.len() == 0 {
        Set::empty()
    } else {
        let before = bare_resources(calls.drop_last());
        match calls.last() {
            RendererCall::ResourceCreateBlob {
                resource_id,
                backing: Some(iovecs),
                refusal: None,
                ..
            } => if iovecs.len() == 0 {
                before.insert(resource_id)
            } else {
                before
            },
            RendererCall::AttachBacking { resource_id, iovecs, refusal: None } => if iovecs.len()
                == 0 {
                before.insert(resource_id)
            } else {
                before.remove(resource_id)
            },
            RendererCall::DetachBacking { resource_id, refusal: None } => before.remove(
                resource_id,
            ),
            RendererCall::UnrefResource { resource_id, refusal: None } => before.remove(
                resource_id,
            ),
            _ => before,
        }
    }
}

/// The contexts that were given a resource with an empty list of guest ranges.
pub open spec fn bare_contexts(calls: Seq<RendererCall>) -> Set<u32>
    decreases calls.len(),
{
    if calls.len() == 0 {
        Set::empty()
    } else {
        let before = bare_contexts(calls.drop_last());
        match calls.last() {
            RendererCall::ContextAttachResource { ctx_id, resource_id, refusal: None } =>
            if bare_resources(calls.drop_last()).contains(resource_id) {
                before.insert(ctx_id)
            } else {
                before
            },
            RendererCall::DestroyContext { ctx_id, refusal: None } => before.remove(ctx_id),
            _ => before,
        }
    }
}

/// The contexts that commands were handed to.
pub open spec fn spoken_contexts(calls: Seq<RendererCall>) -> Set<u32>
    decreases calls.len(),
{
    if calls.len() == 0 {
        Set::empty()
    } else {
        let before = spoken_contexts(calls.drop_last());
        match calls.last() {
            RendererCall::SubmitCommand { ctx_id, .. } => before.insert(ctx_id),
            RendererCall::DestroyContext { ctx_id, refusal: None } => before.remove(ctx_id),
            _ => before,
        }
    }
}

/// The contexts that may have been initialised with a channel.
pub open spec fn channel_contexts(calls: Seq<RendererCall>) -> Set<u32>
    decreases calls.len(),
{
    if calls.len() == 0 {
        Set::empty()
    } else {
        let before = channel_contexts(calls.drop_last());
        match calls.last() {
            RendererCall::SubmitCommand { ctx_id, commands, fence_ids, refusal } =>
            if fence_ids.len() == 0 && frames_open(commands, refusal is None) {
                before.insert(ctx_id)
            } else {
                before
            },
            RendererCall::DestroyContext { ctx_id, refusal: None } => before.remove(ctx_id),
            _ => before,
        }
    }
}

/// The contexts that were created as cross-domain contexts, after `calls`.
pub open spec fn cross_contexts(calls: Seq<RendererCall>, cross_default: bool) -> Set<u32>
    decreases calls.len(),
{
    if calls.len() == 0 {
        Set::empty()
    } else {
        let before = cross_contexts(calls.drop_last(), cross_default);
        match calls.last() {
            RendererCall::CreateContext { ctx_id, context_init, refusal: None, .. } =>
            if is_cross_domain_init(context_init, cross_default) {
                before.insert(ctx_id)
            } else {
                before
            },
            RendererCall::DestroyContext { ctx_id, refusal: None } => before.remove(ctx_id),
            _ => before,
        }
    }
}

/// Whether `ctx_id` is a cross-domain context of the renderer.
pub open spec fn is_cross_domain(renderer: Rutabaga, ctx_id: u32) -> bool {
    cross_contexts(renderer_calls(renderer), renderer_cross_default(renderer)).contains(ctx_id)
}

/// Whether context `ctx_id` was given a resource with an empty list.
pub open spec fn is_bare(renderer: Rutabaga, ctx_id: u32) -> bool {
    bare_contexts(renderer_calls(renderer)).contains(ctx_id)
}

/// Whether commands were handed to context `ctx_id`.
pub open spec fn is_spoken(renderer: Rutabaga, ctx_id: u32) -> bool {
    spoken_contexts(renderer_calls(renderer)).contains(ctx_id)
}

/// Whether context `ctx_id` may have been initialised with a channel.
pub open spec fn is_open(renderer: Rutabaga, ctx_id: u32) -> bool {
    channel_contexts(renderer_calls(renderer)).contains(ctx_id)
}

/// Whether context `ctx_id` can be given and deprived of resources. A
/// cross-domain context cannot once it has commands and an empty list: the thread
/// that replies for it may have stopped while it held what the context has.
pub open spec fn rings_sound(renderer: Rutabaga, ctx_id: u32) -> bool {
    is_cross_domain(renderer, ctx_id) ==> !(is_bare(renderer, ctx_id) && is_spoken(
        renderer,
        ctx_id,
    ))
}

/// Whether `code` is a command for a cross-domain context.
pub open spec fn is_cross_domain_command(code: u8) -> bool {
    1 <= code <= 4 || code == 7
}

/// The bytes that a command needs. Commands that initialise the context (1), ask
/// for the layout of an image (2), poll (3), send (4) or write (7) differ.
pub open spec fn command_size(code: u8) -> int {
    if code == 1 {
        16
    } else if code == 3 {
        8
    } else if code == 4 {
        352
    } else {
        24
    }
}

/// Whether a cross-domain context stops at the start of `commands`: there is no
/// header of eight bytes, or none of its commands, or not all of one.
pub open spec fn frames_end(commands: Seq<u8>) -> bool {
    ||| commands.len() < 8
    ||| !is_cross_domain_command(commands[0])
    ||| commands.len() < command_size(commands[0])
}

/// How far away the next command is, by the third and fourth byte of a header.
pub open spec fn frame_size(commands: Seq<u8>) -> int {
    commands[2] + 256 * commands[3]
}

/// Whether the end of the data behind a command can be computed. How long they
/// are stands in the fourth word of a command that sends, and in the fifth of one
/// that writes.
pub open spec fn data_fits(commands: Seq<u8>) -> bool {
    &&& commands[0] == 4 ==> 352 + word_at(commands, 12) <= usize::MAX
    &&& commands[0] == 7 ==> 24 + word_at(commands, 16) <= usize::MAX
}

/// The four bytes from `at` on as one number, the lowest first.
pub open spec fn word_at(bytes: Seq<u8>, at: int) -> int {
    bytes[at] + 0x100 * bytes[at + 1] + 0x1_0000 * bytes[at + 2] + 0x100_0000 * bytes[at + 3]
}

/// Whether commands for a cross-domain context come to an end, and the data
/// behind each of them too.
pub open spec fn frames_advance(commands: Seq<u8>) -> bool
    decreases commands.len(),
{
    frames_end(commands) || {
        &&& data_fits(commands)
        &&& frame_size(commands) > 0
        &&& frame_size(commands) < commands.len() ==> frames_advance(
            commands.skip(frame_size(commands)),
        )
    }
}

/// Whether command `code` is among the commands that a cross-domain context
/// comes to.
pub open spec fn frames_hold(commands: Seq<u8>, code: u8) -> bool
    decreases commands.len(),
{
    !frames_end(commands) && {
        ||| commands[0] == code
        ||| 0 < frame_size(commands) < commands.len() && frames_hold(
            commands.skip(frame_size(commands)),
            code,
        )
    }
}

/// Whether a command that initialises the context asks for a channel. Its type
/// stands in the last four bytes of the command, which is four bytes shorter where
/// there is no more.
pub open spec fn asks_for_channel(commands: Seq<u8>) -> bool {
    let at = if commands.len() < 20 {
        12int
    } else {
        16int
    };
    commands[at] != 0 || commands[at + 1] != 0 || commands[at + 2] != 0 || commands[at + 3] != 0
}

/// Whether a cross-domain context may have got a channel from `commands`, which it
/// has carried out, or refused one of them. A command that asks for a channel and
/// is the last has given none where the commands were refused.
pub open spec fn frames_open(commands: Seq<u8>, done: bool) -> bool
    decreases commands.len(),
{
    !frames_end(commands) && {
        ||| commands[0] == 1 && asks_for_channel(commands) && (done || frame_size(commands)
            != commands.len())
        ||| 0 < frame_size(commands) < commands.len() && frames_open(
            commands.skip(frame_size(commands)),
            done,
        )
    }
}

/// Whether a cross-domain context that may have a channel is initialised without
/// one by `commands`, at the start of which it has one or not.
pub open spec fn frames_close(commands: Seq<u8>, open: bool) -> bool
    decreases commands.len(),
{
    !frames_end(commands) && {
        ||| open && commands[0] == 1 && !asks_for_channel(commands)
        ||| 0 < frame_size(commands) < commands.len() && frames_close(
            commands.skip(frame_size(commands)),
            open || (commands[0] == 1 && asks_for_channel(commands)),
        )
    }
}

/// Whether a context of the given kind can be handed `commands`.
///
/// Commands for a cross-domain context have to come to an end. One with a channel
/// cannot be initialised without one: the thread that serves the channel would not
/// be told when the context is destroyed, which waits for it. One with an empty
/// list cannot be asked for the layout of an image, since it would reply there;
/// and once it has had commands, it can neither be initialised nor be asked to
/// send or write, since these look at what it has.
pub open spec fn admitted(
    cross: bool,
    bare: bool,
    spoken: bool,
    open: bool,
    commands: Seq<u8>,
) -> bool {
    cross ==> {
        &&& frames_advance(commands)
        &&& !frames_close(commands, open)
        &&& bare ==> !frames_hold(commands, 2)
        &&& bare && spoken ==> !frames_hold(commands, 1) && !frames_hold(commands, 4)
            && !frames_hold(commands, 7)
    }
}

/// Whether context `ctx_id` can be handed `commands`. With fences of their own a
/// cross-domain context refuses them unread.
pub open spec fn submittable(
    renderer: Rutabaga,
    ctx_id: u32,
    commands: Seq<u8>,
    fence_ids: Seq<u64>,
) -> bool {
    fence_ids.len() == 0 ==> admitted(
        is_cross_domain(renderer, ctx_id),
        is_bare(renderer, ctx_id),
        is_spoken(renderer, ctx_id),
        is_open(renderer, ctx_id),
        commands,
    )
}

/// Whether a cross-domain context stops at byte `start` of `commands`.
fn check_end(commands: &[u8], start: usize) -> (result: bool)
    requires
        start <= commands@.len(),
    ensures
        result == frames_end(commands@.skip(start as int)),
{
    let left: usize = commands.len() - start;
    if left < 8 {
        return true;
    }
    let code: u8 = commands[start];
    let size: usize = if code == 1 {
        16
    } else if code == 3 {
        8
    } else if code == 4 {
        352
    } else {
        24
    };
    code < 1 || (code > 4 && code != 7) || left < size
}

/// Whether the end of the data behind the command at byte `start` of `commands`
/// can be computed.
fn check_data(commands: &[u8], start: usize) -> (result: bool)
    requires
        start <= commands@.len(),
        !frames_end(commands@.skip(start as int)),
    ensures
        result == data_fits(commands@.skip(start as int)),
{
    let code: u8 = commands[start];
    if code != 4 && code != 7 {
        return true;
    }
    let (at, size): (usize, u64) = if code == 4 {
        (start + 12, 352)
    } else {
        (start + 16, 24)
    };
    let len: u64 = commands[at] as u64 + 0x100 * commands[at + 1] as u64 + 0x1_0000 * commands[at
        + 2] as u64 + 0x100_0000 * commands[at + 3] as u64;
    size + len <= usize::MAX as u64
}

/// Whether commands for a cross-domain context come to an end, and the data
/// behind each of them too.
pub fn check_frames(commands: &[u8]) -> (result: bool)
    ensures
        result == frames_advance(commands@),
{
    let mut start: usize = 0;
    assert(commands@.skip(0) =~= commands@);
    while !check_end(commands, start)
        invariant
            start <= commands@.len(),
            frames_advance(commands@) == frames_advance(commands@.skip(start as int)),
        decreases commands.len() - start,
    {
        let size: usize = commands[start + 2] as usize + 256 * commands[start + 3] as usize;
        let ghost rest = commands@.skip(start as int);
        if size == 0 || !check_data(commands, start) {
            return false;
        }
        if size >= commands.len() - start {
            return true;
        }
        assert(rest.skip(size as int) =~= commands@.skip(start + size));
        start = start + size;
    }
    true
}

/// Whether command `code` is among the commands that a cross-domain context
/// comes to.
pub fn check_command(commands: &[u8], code: u8) -> (result: bool)
    ensures
        result == frames_hold(commands@, code),
{
    let mut start: usize = 0;
    assert(commands@.skip(0) =~= commands@);
    while !check_end(commands, start)
        invariant
            start <= commands@.len(),
            frames_hold(commands@, code) == frames_hold(commands@.skip(start as int), code),
        decreases commands.len() - start,
    {
        if commands[start] == code {
            return true;
        }
        let size: usize = commands[start + 2] as usize + 256 * commands[start + 3] as usize;
        let ghost rest = commands@.skip(start as int);
        if size == 0 || size >= commands.len() - start {
            return false;
        }
        assert(rest.skip(size as int) =~= commands@.skip(start + size));
        start = start + size;
    }
    false
}

/// Whether the command that initialises the context at byte `start` of `commands`
/// asks for a channel.
fn check_channel(commands: &[u8], start: usize) -> (result: bool)
    requires
        start + 16 <= commands@.len(),
    ensures
        result == asks_for_channel(commands@.skip(start as int)),
{
    let at: usize = if commands.len() - start < 20 {
        start + 12
    } else {
        start + 16
    };
    commands[at] != 0 || commands[at + 1] != 0 || commands[at + 2] != 0 || commands[at + 3] != 0
}

/// Whether a cross-domain context may have got a channel from `commands`.
pub fn check_open(commands: &[u8], done: bool) -> (result: bool)
    ensures
        result == frames_open(commands@, done),
{
    let mut start: usize = 0;
    assert(commands@.skip(0) =~= commands@);
    while !check_end(commands, start)
        invariant
            start <= commands@.len(),
            frames_open(commands@, done) == frames_open(commands@.skip(start as int), done),
        decreases commands.len() - start,
    {
        let size: usize = commands[start + 2] as usize + 256 * commands[start + 3] as usize;
        let ghost rest = commands@.skip(start as int);
        if commands[start] == 1 && (done || size != commands.len() - start) && check_channel(
            commands,
            start,
        ) {
            return true;
        }
        if size == 0 || size >= commands.len() - start {
            return false;
        }
        assert(rest.skip(size as int) =~= commands@.skip(start + size));
        start = start + size;
    }
    false
}

/// Whether a cross-domain context that may have a channel is initialised without
/// one by `commands`.
pub fn check_close(commands: &[u8], open: bool) -> (result: bool)
    ensures
        result == frames_close(commands@, open),
{
    let mut now: bool = open;
    let mut start: usize = 0;
    assert(commands@.skip(0) =~= commands@);
    while !check_end(commands, start)
        invariant
            start <= commands@.len(),
            frames_close(commands@, open) == frames_close(commands@.skip(start as int), now),
        decreases commands.len() - start,
    {
        let size: usize = commands[start + 2] as usize + 256 * commands[start + 3] as usize;
        let ghost rest = commands@.skip(start as int);
        if commands[start] == 1 {
            if check_channel(commands, start) {
                now = true;
            } else if now {
                return true;
            }
        }
        if size == 0 || size >= commands.len() - start {
            return false;
        }
        assert(rest.skip(size as int) =~= commands@.skip(start + size));
        start = start + size;
    }
    false
}

/// The last call on the renderer.
pub open spec fn last_call(renderer: Rutabaga) -> RendererCall {
    renderer_calls(renderer).last()
}

/// The contexts of a renderer, as far as it matters what they can be asked for.
#[derive(Debug)]
pub struct ContextTable {
    cross_default: bool,
    cross: BTreeSet<u32>,
    bare: BTreeSet<u32>,
    bare_contexts: BTreeSet<u32>,
    spoken: BTreeSet<u32>,
    open: BTreeSet<u32>,
}

impl ContextTable {
    /// The table tells of the contexts of `renderer`.
    pub closed spec fn tells_of(self, renderer: Rutabaga) -> bool {
        let calls = renderer_calls(renderer);
        &&& self.cross_default == renderer_cross_default(renderer)
        &&& self.cross@ == cross_contexts(calls, self.cross_default)
        &&& self.bare@ == bare_resources(calls)
        &&& self.bare_contexts@ == bare_contexts(calls)
        &&& self.spoken@ == spoken_contexts(calls)
        &&& self.open@ == channel_contexts(calls)
    }

    /// The table of a renderer on which nothing has been done.
    pub fn new(cross_default: bool) -> (result: ContextTable)
        ensures
            forall|renderer: Rutabaga|
                renderer_calls(renderer).len() == 0 && renderer_cross_default(renderer)
                    == cross_default ==> #[trigger] result.tells_of(renderer),
    {
        ContextTable {
            cross_default,
            cross: BTreeSet::new(),
            bare: BTreeSet::new(),
            bare_contexts: BTreeSet::new(),
            spoken: BTreeSet::new(),
            open: BTreeSet::new(),
        }
    }

    /// A resource was given a list of guest ranges.
    pub(crate) fn attached(
        &mut self,
        resource_id: u32,
        empty: bool,
        Ghost(before): Ghost<Rutabaga>,
        Ghost(after): Ghost<Rutabaga>,
    )
        requires
            old(self).tells_of(before),
            renderer_called(before, after, last_call(after)),
            last_call(after) matches RendererCall::AttachBacking {
                resource_id: id,
                iovecs,
                refusal: None,
            } && id == resource_id && empty == (iovecs.len() == 0),
        ensures
            final(self).tells_of(after),
    {
        proof {
            lemma_last(before, after);
        }
        if empty {
            self.bare.insert(resource_id);
        } else {
            self.bare.remove(&resource_id);
        }
    }

    /// A resource was created with a list of guest ranges.
    pub(crate) fn created_blob(
        &mut self,
        resource_id: u32,
        empty: bool,
        Ghost(before): Ghost<Rutabaga>,
        Ghost(after): Ghost<Rutabaga>,
    )
        requires
            old(self).tells_of(before),
            renderer_called(before, after, last_call(after)),
            last_call(after) matches RendererCall::ResourceCreateBlob {
                resource_id: id,
                backing,
                refusal: None,
                ..
            } && id == resource_id && empty == (backing matches Some(list) && list.len() == 0),
        ensures
            final(self).tells_of(after),
    {
        proof {
            lemma_last(before, after);
        }
        if empty {
            self.bare.insert(resource_id);
        }
    }

    /// A resource has lost its list of guest ranges.
    pub(crate) fn detached(
        &mut self,
        resource_id: u32,
        Ghost(before): Ghost<Rutabaga>,
        Ghost(after): Ghost<Rutabaga>,
    )
        requires
            old(self).tells_of(before),
            renderer_called(before, after, last_call(after)),
            last_call(after) == (RendererCall::DetachBacking { resource_id, refusal: None })
                || last_call(after) == (RendererCall::UnrefResource { resource_id, refusal: None }),
        ensures
            final(self).tells_of(after),
    {
        proof {
            lemma_last(before, after);
        }
        self.bare.remove(&resource_id);
    }

    /// A context was given a resource.
    pub(crate) fn attached_resource(
        &mut self,
        ctx_id: u32,
        resource_id: u32,
        Ghost(before): Ghost<Rutabaga>,
        Ghost(after): Ghost<Rutabaga>,
    )
        requires
            old(self).tells_of(before),
            renderer_called(before, after, last_call(after)),
            last_call(after) == (RendererCall::ContextAttachResource {
                ctx_id,
                resource_id,
                refusal: None,
            }),
        ensures
            final(self).tells_of(after),
    {
        proof {
            lemma_last(before, after);
        }
        if self.bare.contains(&resource_id) {
            self.bare_contexts.insert(ctx_id);
        }
    }

    /// A context was created.
    pub(crate) fn created_context(
        &mut self,
        ctx_id: u32,
        context_init: u32,
        Ghost(before): Ghost<Rutabaga>,
        Ghost(after): Ghost<Rutabaga>,
    )
        requires
            old(self).tells_of(before),
            renderer_called(before, after, last_call(after)),
            last_call(after) matches RendererCall::CreateContext {
                ctx_id: id,
                context_init: init,
                refusal: None,
                ..
            } && id == ctx_id && init == context_init,
        ensures
            final(self).tells_of(after),
    {
        proof {
            lemma_last(before, after);
        }
        if self.cross_default || context_init & CONTEXT_INIT_CAPSET_ID_MASK == CAPSET_CROSS_DOMAIN {
            self.cross.insert(ctx_id);
        }
    }

    /// A context was destroyed.
    pub(crate) fn destroyed_context(
        &mut self,
        ctx_id: u32,
        Ghost(before): Ghost<Rutabaga>,
        Ghost(after): Ghost<Rutabaga>,
    )
        requires
            old(self).tells_of(before),
            renderer_called(before, after, last_call(after)),
            last_call(after) == (RendererCall::DestroyContext { ctx_id, refusal: None }),
        ensures
            final(self).tells_of(after),
    {
        proof {
            lemma_last(before, after);
        }
        self.cross.remove(&ctx_id);
        self.bare_contexts.remove(&ctx_id);
        self.spoken.remove(&ctx_id);
        self.open.remove(&ctx_id);
    }

    /// A context was handed commands, and may have got a channel from them.
    pub(crate) fn submitted(
        &mut self,
        ctx_id: u32,
        opened: bool,
        Ghost(before): Ghost<Rutabaga>,
        Ghost(after): Ghost<Rutabaga>,
    )
        requires
            old(self).tells_of(before),
            renderer_called(before, after, last_call(after)),
            last_call(after) matches RendererCall::SubmitCommand {
                ctx_id: id,
                commands,
                fence_ids,
                refusal,
            } && id == ctx_id && opened == (fence_ids.len() == 0 && frames_open(
                commands,
                refusal is None,
            )),
        ensures
            final(self).tells_of(after),
    {
        proof {
            lemma_last(before, after);
        }
        self.spoken.insert(ctx_id);
        if opened {
            self.open.insert(ctx_id);
        }
    }

    /// Whether a context can be given and deprived of resources.
    pub(crate) fn rings_sound(&self, ctx_id: u32, Ghost(renderer): Ghost<Rutabaga>) -> (result:
        bool)
        requires
            self.tells_of(renderer),
        ensures
            result == rings_sound(renderer, ctx_id),
    {
        !self.cross.contains(&ctx_id) || !self.bare_contexts.contains(&ctx_id)
            || !self.spoken.contains(&ctx_id)
    }

    /// Whether a context can be handed `commands`.
    pub(crate) fn submittable(
        &self,
        ctx_id: u32,
        commands: &[u8],
        fence_ids: &[u64],
        Ghost(renderer): Ghost<Rutabaga>,
    ) -> (result: bool)
        requires
            self.tells_of(renderer),
        ensures
            result == submittable(renderer, ctx_id, commands@, fence_ids@),
    {
        if fence_ids.len() > 0 || !self.cross.contains(&ctx_id) {
            return true;
        }
        if !check_frames(commands) || check_close(commands, self.open.contains(&ctx_id)) {
            return false;
        }
        if !self.bare_contexts.contains(&ctx_id) {
            return true;
        }
        if check_command(commands, 2) {
            return false;
        }
        !self.spoken.contains(&ctx_id) || (!check_command(commands, 1) && !check_command(
            commands,
            4,
        ) && !check_command(commands, 7))
    }
}

/// Whether `call` changes what contexts can be asked for.
pub open spec fn is_telling(call: RendererCall) -> bool {
    match call {
        RendererCall::ResourceCreateBlob { backing: Some(_), refusal: None, .. } => true,
        RendererCall::AttachBacking { refusal: None, .. } => true,
        RendererCall::DetachBacking { refusal: None, .. } => true,
        RendererCall::UnrefResource { refusal: None, .. } => true,
        RendererCall::ContextAttachResource { refusal: None, .. } => true,
        RendererCall::CreateContext { refusal: None, .. } => true,
        RendererCall::DestroyContext { refusal: None, .. } => true,
        RendererCall::SubmitCommand { .. } => true,
        _ => false,
    }
}

/// What stands before the last call.
pub(crate) proof fn lemma_last(before: Rutabaga, after: Rutabaga)
    requires
        renderer_called(before, after, last_call(after)),
    ensures
        renderer_calls(after).len() > 0,
        renderer_calls(after).drop_last() == renderer_calls(before),
{
    assert(renderer_calls(after).drop_last() =~= renderer_calls(before));
}

/// A call that changes nothing of the contexts leaves the table as it is.
pub(crate) proof fn lemma_untold(table: ContextTable, before: Rutabaga, after: Rutabaga)
    requires
        table.tells_of(before),
        renderer_called(before, after, last_call(after)),
        !is_telling(last_call(after)),
    ensures
        table.tells_of(after),
{
    lemma_last(before, after);
}

/// Commands can be handed over one after the other: if each of them is long enough
/// for what it asks for (16 bytes to initialise the context, 24 for the layout of
/// an image and to write, 8 to poll, 352 to send), and says how long it is, they
/// come to an end, and the context comes to each of them.
pub proof fn law_commands_in_a_row(command: Seq<u8>, rest: Seq<u8>, code: u8)
    requires
        command.len() >= 8,
        command[2] + 256 * command[3] == command.len(),
        ({
            ||| command[0] == 1 && command.len() >= 16
            ||| command[0] == 2 && command.len() >= 24
            ||| command[0] == 3
            ||| command[0] == 4 && command.len() >= 352
            ||| command[0] == 7 && command.len() >= 24
        }),
        command[0] == 4 ==> 352 + command[12] + 0x100 * command[13] + 0x1_0000 * command[14]
            + 0x100_0000 * command[15] <= usize::MAX,
        command[0] == 7 ==> 24 + command[16] + 0x100 * command[17] + 0x1_0000 * command[18]
            + 0x100_0000 * command[19] <= usize::MAX,
    ensures
        frames_advance(command + rest) <==> frames_advance(rest),
        frames_hold(command + rest, code) <==> command[0] == code || frames_hold(rest, code),
{
    let all = command + rest;
    assert(all.skip(command.len() as int) =~= rest);
    assert(!frames_end(all));
    assert(frame_size(all) == command.len());
    if rest.len() == 0 {
        assert(frames_advance(rest));
        assert(!frames_hold(rest, code));
    }
}

/// What is no command ends the commands: too few bytes for a header, a header of
/// another kind, or too few bytes for what it asks for.
pub proof fn law_no_command_is_an_end(commands: Seq<u8>, code: u8, flag: bool)
    requires
        ({
            ||| commands.len() < 8
            ||| commands[0] == 0 || commands[0] == 5 || commands[0] == 6 || commands[0] > 7
            ||| commands[0] == 1 && commands.len() < 16
            ||| commands[0] == 2 && commands.len() < 24
            ||| commands[0] == 4 && commands.len() < 352
            ||| commands[0] == 7 && commands.len() < 24
        }),
    ensures
        frames_advance(commands),
        !frames_hold(commands, code),
        !frames_open(commands, flag),
        !frames_close(commands, flag),
{
}

/// A command that leads nowhere does not come to an end.
pub proof fn law_endless_command(commands: Seq<u8>)
    requires
        commands.len() >= 8,
        commands[2] == 0 && commands[3] == 0,
        ({
            ||| commands[0] == 1 && commands.len() >= 16
            ||| commands[0] == 2 && commands.len() >= 24
            ||| commands[0] == 3
            ||| commands[0] == 4 && commands.len() >= 352
            ||| commands[0] == 7 && commands.len() >= 24
        }),
    ensures
        !frames_advance(commands),
{
}

/// Only a command that initialises the context, with the type of a channel that is
/// not zero, opens one; and only one with the type zero, behind it or where there
/// is a channel already, closes it. Other commands do neither.
pub proof fn law_channels_are_opened_by_their_type(
    command: Seq<u8>,
    rest: Seq<u8>,
    open: bool,
    done: bool,
)
    requires
        command.len() >= 20,
        command[2] + 256 * command[3] == command.len(),
        ({
            ||| command[0] == 1
            ||| command[0] == 2 && command.len() >= 24
            ||| command[0] == 3
            ||| command[0] == 4 && command.len() >= 352
            ||| command[0] == 7 && command.len() >= 24
        }),
    ensures
        ({
            let starts = command[0] == 1;
            let none = command[16] == 0 && command[17] == 0 && command[18] == 0 && command[19]
                == 0;
            &&& frames_open(command + rest, done) <==> (starts && !none && (done || rest.len() > 0))
                || frames_open(rest, done)
            &&& frames_close(command + rest, open) <==> (open && starts && none) || frames_close(
                rest,
                open || (starts && !none),
            )
        }),
{
    let all = command + rest;
    assert(all.skip(command.len() as int) =~= rest);
    assert(!frames_end(all));
    assert(frame_size(all) == command.len());
}

/// What a cross-domain context cannot be handed: commands that do not come to an
/// end; those that take a channel from it; and, where it has an empty list, those
/// that ask for the layout of an image, and once it has had commands also those
/// that initialise it, send or write.
pub proof fn law_cross_domain_context_is_spared(
    renderer: Rutabaga,
    ctx_id: u32,
    commands: Seq<u8>,
)
    requires
        is_cross_domain(renderer, ctx_id),
    ensures
        ({
            let taken = submittable(renderer, ctx_id, commands, Seq::empty());
            let bare = is_bare(renderer, ctx_id);
            let stopped = bare && is_spoken(renderer, ctx_id);
            &&& !frames_advance(commands) ==> !taken
            &&& frames_close(commands, is_open(renderer, ctx_id)) ==> !taken
            &&& bare && frames_hold(commands, 2) ==> !taken
            &&& stopped && frames_hold(commands, 1) ==> !taken
            &&& stopped && frames_hold(commands, 4) ==> !taken
            &&& stopped && frames_hold(commands, 7) ==> !taken
            &&& stopped ==> !rings_sound(renderer, ctx_id)
        }),
{
}

/// A context has commands once it was handed some, and an empty list once it was
/// given a resource that has one; and a resource has one once it was given one, and
/// until it is given another list.
pub proof fn law_contexts_remember(before: Rutabaga, after: Rutabaga)
    requires
        renderer_called(before, after, last_call(after)),
    ensures
        match last_call(after) {
            RendererCall::SubmitCommand { ctx_id, .. } => is_spoken(after, ctx_id),
            RendererCall::ContextAttachResource { ctx_id, resource_id, refusal: None } => is_bare(
                after,
                ctx_id,
            ) == (is_bare(before, ctx_id) || bare_resources(renderer_calls(before)).contains(
                resource_id,
            )),
            RendererCall::AttachBacking { resource_id, iovecs, refusal: None } => bare_resources(
                renderer_calls(after),
            ).contains(resource_id) == (iovecs.len() == 0),
            RendererCall::ResourceCreateBlob {
                resource_id,
                backing: Some(iovecs),
                refusal: None,
                ..
            } => iovecs.len() == 0 ==> bare_resources(renderer_calls(after)).contains(resource_id),
            _ => true,
        },
{
    lemma_last(before, after);
}

/// A context that is no cross-domain context can be handed anything, and any
/// context can be handed anything that comes with fences of its own.
pub proof fn law_other_contexts_take_anything(
    renderer: Rutabaga,
    ctx_id: u32,
    commands: Seq<u8>,
    fence_ids: Seq<u64>,
)
    requires
        !is_cross_domain(renderer, ctx_id) || fence_ids.len() > 0,
    ensures
        submittable(renderer, ctx_id, commands, fence_ids),
        !is_cross_domain(renderer, ctx_id) ==> rings_sound(renderer, ctx_id),
{
}

/// A context is a cross-domain context once it was created with that capability
/// set, the lowest byte of its initial value, or in a renderer where such contexts
/// are the default, and until it is destroyed.
pub proof fn law_cross_domain_contexts(
    before: Rutabaga,
    after: Rutabaga,
    ctx_id: u32,
    context_init: u32,
    name: Option<Seq<char>>,
)
    requires
        renderer_called(
            before,
            after,
            RendererCall::CreateContext { ctx_id, context_init, name, refusal: None },
        ),
        !is_cross_domain(before, ctx_id),
    ensures
        is_cross_domain(after, ctx_id) <==> renderer_cross_default(before) || context_init & 0xff
            == 5,
        forall|k: u32|
            k != ctx_id ==> #[trigger] is_cross_domain(after, k) == is_cross_domain(before, k),
{
    lemma_last(before, after);
}

} // verus!
