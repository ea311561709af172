//! A safe layer over a display-list graphics engine with two colour buffers
//! and one depth buffer.
//!
//! A [`PspGfx`] is the engine at rest; a [`Frame`] is the engine with a command
//! list open. Opening a frame consumes the context and closing the frame gives
//! it back, so a second frame cannot be opened while one is alive, and a frame
//! cannot be closed twice. Neither type touches the hardware: each operation is
//! queued as a [`GuCommand`], to be performed in order by whoever drives the
//! engine.

use vstd::prelude::*;

pub mod buffer;
pub mod color;
pub mod command;
pub mod error;
pub mod index;
pub mod protocol;
pub mod rect;
pub mod vertex;

use crate::buffer::{Buffer, BufferSource, TransientBuffer};
use crate::color::Color32;
use crate::command::{
    BufferAddress, GuCommand, GuPrimitive, GuState, PixelFormat, ShadingModel,
    TextureColorComponent, TextureEffect, BUF_WIDTH, COLOR_BUFFER_BIT, DEPTH_BUFFER_BIT, DEPTH_MAX,
    SCREEN_HEIGHT, SCREEN_WIDTH, VIRTUAL_CENTER,
};
use crate::error::GfxError;
use crate::index::IndexItem;
use crate::protocol::{
    exchanges, lemma_one_close_per_frame, lemma_run_push, power_on, run, starts, step, Device,
    Phase,
};
use crate::rect::Rect;
use crate::vertex::Vertex;

verus! {

/// What contracts know of a context or of a frame.
pub struct Session {
    /// The state in which the operations issued so far have left the engine.
    pub device: Device,
    /// The operations issued and not yet taken for execution, oldest first.
    pub pending: Seq<GuCommand>,
    /// Every operation issued since the engine was brought up, oldest first.
    pub issued: Seq<GuCommand>,
}

impl Session {
    /// This session after `commands` were issued and have left the engine in
    /// the state `device`.
    pub open spec fn after(self, commands: Seq<GuCommand>, device: Device) -> Session {
        Session {
            device,
            pending: self.pending + commands,
            issued: self.issued + commands,
        }
    }

    /// Whether the queue holds the newest operations of the history: what is
    /// still to be taken is exactly the end of what was issued.
    pub open spec fn queue_is_recent(self) -> bool {
        ends_with(self.issued, self.pending)
    }

    /// The number of the frame that is open: the first frame has number 1.
    /// At rest it is the number of the frame that was closed last.
    pub open spec fn frame_number(self) -> nat {
        (self.device.lists - 1) as nat
    }

    /// This session, at rest, after a frame was opened: one more list is
    /// open, and everything else is as it was.
    pub open spec fn opened(self) -> Session {
        self.after(
            seq![GuCommand::Start],
            Device { phase: Phase::Recording, lists: self.device.lists + 1, ..self.device },
        )
    }

    /// This session, with a frame open, after the frame was closed: the close
    /// sequence was issued, the drawn and the shown region have changed
    /// roles, as many frames were closed as the number of this frame says,
    /// and the scratch blocks and the shading model of the frame are gone.
    pub open spec fn closed(self) -> Session {
        self.after(
            close_sequence(),
            Device {
                phase: Phase::Idle,
                draw_buffer: self.device.disp_buffer,
                disp_buffer: self.device.draw_buffer,
                swaps: self.frame_number(),
                slots: 0,
                shading_model: None,
                ..self.device
            },
        )
    }

    /// Whether a draw issued now may read from `source`. Memory of the caller
    /// can always be read; a scratch block only in the frame that carved it
    /// out.
    pub open spec fn reads(self, source: BufferSource) -> bool {
        match source {
            BufferSource::Memory(_) => true,
            BufferSource::Scratch { frame, slot } => frame == self.frame_number() && slot
                < self.device.slots,
        }
    }
}

/// Whether `tail` is the end of `whole`.
pub open spec fn ends_with(whole: Seq<GuCommand>, tail: Seq<GuCommand>) -> bool {
    &&& tail.len() <= whole.len()
    &&& whole.skip(whole.len() - tail.len()) == tail
}

/// The address by which a draw names a source that the open frame may read.
pub open spec fn resolve(source: BufferSource) -> BufferAddress {
    match source {
        BufferSource::Memory(address) => BufferAddress::Memory(address),
        BufferSource::Scratch { frame, slot } => BufferAddress::Scratch(slot),
    }
}

/// The four operations that close a frame, in their order: finish the list,
/// wait for the engine to execute it, wait for the vertical blank, exchange
/// the drawn and the shown buffer.
pub open spec fn close_sequence() -> Seq<GuCommand> {
    seq![GuCommand::Finish, GuCommand::Sync, GuCommand::WaitVblankStart, GuCommand::SwapBuffers]
}

/// The shape of one video-memory region that a context needs.
#[derive(Clone, Copy, Debug, PartialEq, Eq, Structural)]
pub struct VramRequest {
    /// Cells per line.
    pub width: u32,
    /// Lines.
    pub height: u32,
    /// Layout of a cell.
    pub format: PixelFormat,
}

/// The operations that bring the engine up around the three regions: the one
/// drawn into first, the one shown first, and the depth buffer.
pub open spec fn setup_sequence(fbp0: usize, fbp1: usize, zbp: usize) -> Seq<GuCommand> {
    seq![
        GuCommand::Init,
        GuCommand::LoadIdentity,
        GuCommand::Start,
        GuCommand::DrawBuffer { format: PixelFormat::Psm8888, address: fbp0, stride: 512 },
        GuCommand::DispBuffer { width: 480, height: 272, address: fbp1, stride: 512 },
        GuCommand::DepthBuffer { address: zbp, stride: 512 },
        GuCommand::Offset(1808, 1912),
        GuCommand::Viewport { cx: 2048, cy: 2048, width: 480, height: 272 },
        GuCommand::DepthRange { near: 65535, far: 0 },
        GuCommand::Scissor { x: 0, y: 0, w: 480, h: 272 },
        GuCommand::Enable(GuState::ScissorTest),
        GuCommand::Finish,
        GuCommand::Sync,
        GuCommand::WaitVblankStart,
        GuCommand::Display(true),
    ]
}

/// The engine at rest around three regions, after `frames` frames were closed
/// and with `texture_function` as the texture function last set.
pub open spec fn idle_device(
    draw_buffer: usize,
    disp_buffer: usize,
    depth_buffer: usize,
    frames: nat,
    texture_function: Option<(TextureEffect, TextureColorComponent)>,
) -> Device {
    Device {
        phase: Phase::Idle,
        display_on: true,
        draw_buffer,
        disp_buffer,
        depth_buffer,
        lists: frames + 1,
        swaps: frames,
        slots: 0,
        texture_function,
        shading_model: None,
    }
}

/// The queue of issued operations, with the history that contracts speak of.
struct Recorder {
    pending: Vec<GuCommand>,
    issued: Ghost<Seq<GuCommand>>,
}

impl Recorder {
    fn new() -> (r: Recorder)
        ensures
            r.pending@ == Seq::<GuCommand>::empty(),
            r.issued@ == Seq::<GuCommand>::empty(),
            ends_with(r.issued@, r.pending@),
    {
        let r = Recorder { pending: Vec::new(), issued: Ghost(Seq::empty()) };
        assert(r.issued@.skip(r.issued@.len() - r.pending@.len()) =~= r.pending@);
        r
    }

    /// Queues one operation.
    fn issue(&mut self, c: GuCommand)
        ensures
            final(self).pending@ == old(self).pending@.push(c),
            final(self).issued@ == old(self).issued@.push(c),
            run(final(self).issued@) == match run(old(self).issued@) {
                Some(d) => step(d, c),
                None => None,
            },
            ends_with(old(self).issued@, old(self).pending@) ==> ends_with(
                final(self).issued@,
                final(self).pending@,
            ),
    {
        proof {
            lemma_run_push(power_on(), self.issued@, c);
        }
        self.pending.push(c);
        self.issued = Ghost(self.issued@.push(c));
        proof {
            if ends_with(old(self).issued@, old(self).pending@) {
                assert(self.issued@.skip(self.issued@.len() - self.pending@.len())
                    =~= self.pending@);
            }
        }
    }

    /// Hands out what is queued and leaves the queue empty.
    fn take(&mut self) -> (commands: Vec<GuCommand>)
        ensures
            commands@ == old(self).pending@,
            final(self).pending@ == Seq::<GuCommand>::empty(),
            final(self).issued@ == old(self).issued@,
            ends_with(final(self).issued@, final(self).pending@),
    {
        let mut commands = Vec::new();
        core::mem::swap(&mut commands, &mut self.pending);
        assert(self.issued@.skip(self.issued@.len() - self.pending@.len()) =~= self.pending@);
        commands
    }
}

/// The graphics engine at rest: brought up, with no command list open.
///
/// It owns the three video-memory regions for as long as it lives, and it is
/// the only source of frames.
pub struct PspGfx {
    draw_buffer: usize,
    disp_buffer: usize,
    depth_buffer: usize,
    frames: u64,
    texture_function: Option<(TextureEffect, TextureColorComponent)>,
    log: Recorder,
}

impl View for PspGfx {
    type V = Session;

    closed spec fn view(&self) -> Session {
        Session {
            device: idle_device(
                self.draw_buffer,
                self.disp_buffer,
                self.depth_buffer,
                self.frames as nat,
                self.texture_function,
            ),
            pending: self.log.pending@,
            issued: self.log.issued@,
        }
    }
}

impl PspGfx {
    /// Whether the operations issued so far are in order and have left the
    /// engine at rest, in the state that this context reports.
    pub open spec fn wf(&self) -> bool {
        &&& run(self@.issued) == Some(self@.device)
        &&& self@.queue_is_recent()
        &&& self@.device.phase is Idle
        &&& self@.device.display_on
        &&& self@.device.lists == self@.device.swaps + 1
        &&& self@.device.swaps <= u64::MAX
        &&& self@.device.slots == 0
        &&& self@.device.shading_model is None
    }

    /// The three regions that a context needs, in the order in which `init`
    /// takes them: drawn first, shown first, depth. All three have the same
    /// line width and height; the two colour regions share one format and the
    /// depth region has its own.
    pub fn region_requests() -> (r: [VramRequest; 3])
        ensures
            r[0] == (VramRequest { width: 512, height: 272, format: PixelFormat::Psm8888 }),
            r[1] == r[0],
            r[2] == (VramRequest { width: 512, height: 272, format: PixelFormat::Psm4444 }),
    {
        let color = VramRequest {
            width: BUF_WIDTH,
            height: SCREEN_HEIGHT,
            format: PixelFormat::Psm8888,
        };
        let depth = VramRequest {
            width: BUF_WIDTH,
            height: SCREEN_HEIGHT,
            format: PixelFormat::Psm4444,
        };
        [color, color, depth]
    }

    /// Brings the engine up around the three regions of `region_requests`,
    /// each given by its base address, or by `None` where the video-memory
    /// allocator could not satisfy the request.
    ///
    /// With all three regions it queues the set-up operations: the buffers are
    /// registered, offset, viewport, depth range and scissor are set for the
    /// whole screen, the scissor test is enabled, and the display is switched
    /// on showing the second region. With a region missing there is no
    /// fallback layout: nothing is queued.
    pub fn init(fbp0: Option<usize>, fbp1: Option<usize>, zbp: Option<usize>) -> (r: Result<
        PspGfx,
        GfxError,
    >)
        ensures
            fbp0 is Some && fbp1 is Some && zbp is Some ==> r is Ok && r->Ok_0.wf() && r->Ok_0@ == (
            Session {
                device: idle_device(fbp0->Some_0, fbp1->Some_0, zbp->Some_0, 0, None),
                pending: setup_sequence(fbp0->Some_0, fbp1->Some_0, zbp->Some_0),
                issued: setup_sequence(fbp0->Some_0, fbp1->Some_0, zbp->Some_0),
            }),
            fbp0 is None || fbp1 is None || zbp is None ==> r == Err::<PspGfx, GfxError>(
                GfxError::OutOfVideoMemory,
            ),
    {
        let (fbp0, fbp1, zbp) = match (fbp0, fbp1, zbp) {
            (Some(a), Some(b), Some(c)) => (a, b, c),
            _ => {
                return Err(GfxError::OutOfVideoMemory);
            },
        };
        let mut log = Recorder::new();
        log.issue(GuCommand::Init);
        log.issue(GuCommand::LoadIdentity);
        log.issue(GuCommand::Start);
        log.issue(
            GuCommand::DrawBuffer {
                format: PixelFormat::Psm8888,
                address: fbp0,
                stride: BUF_WIDTH as i32,
            },
        );
        log.issue(
            GuCommand::DispBuffer {
                width: SCREEN_WIDTH as i32,
                height: SCREEN_HEIGHT as i32,
                address: fbp1,
                stride: BUF_WIDTH as i32,
            },
        );
        log.issue(GuCommand::DepthBuffer { address: zbp, stride: BUF_WIDTH as i32 });
        log.issue(
            GuCommand::Offset(
                VIRTUAL_CENTER - (SCREEN_WIDTH / 2),
                VIRTUAL_CENTER - (SCREEN_HEIGHT / 2),
            ),
        );
        log.issue(
            GuCommand::Viewport {
                cx: VIRTUAL_CENTER as i32,
                cy: VIRTUAL_CENTER as i32,
                width: SCREEN_WIDTH as i32,
                height: SCREEN_HEIGHT as i32,
            },
        );
        log.issue(GuCommand::DepthRange { near: DEPTH_MAX, far: 0 });
        log.issue(
            GuCommand::Scissor { x: 0, y: 0, w: SCREEN_WIDTH as i32, h: SCREEN_HEIGHT as i32 },
        );
        log.issue(GuCommand::Enable(GuState::ScissorTest));
        log.issue(GuCommand::Finish);
        log.issue(GuCommand::Sync);
        log.issue(GuCommand::WaitVblankStart);
        log.issue(GuCommand::Display(true));
        assert(log.issued@ =~= setup_sequence(fbp0, fbp1, zbp));
        assert(log.pending@ =~= setup_sequence(fbp0, fbp1, zbp));
        Ok(
            PspGfx {
                draw_buffer: fbp0,
                disp_buffer: fbp1,
                depth_buffer: zbp,
                frames: 0,
                texture_function: None,
                log,
            },
        )
    }

    /// Opens a frame: a new command list in the shared list memory.
    ///
    /// The context goes into the frame and comes back when the frame is
    /// finished, so no second frame can be opened in between. The texture
    /// function set in earlier frames is still in force; no shading model is
    /// set.
    pub fn start_frame(self) -> (frame: Frame)
        requires
            self@.device.swaps < u64::MAX,
        ensures
            self.wf() ==> frame.wf(),
            frame@ == self@.opened(),
    {
        let mut log = self.log;
        log.issue(GuCommand::Start);
        assert(log.issued@ =~= self.log.issued@ + seq![GuCommand::Start]);
        assert(log.pending@ =~= self.log.pending@ + seq![GuCommand::Start]);
        Frame {
            draw_buffer: self.draw_buffer,
            disp_buffer: self.disp_buffer,
            depth_buffer: self.depth_buffer,
            number: self.frames + 1,
            texture_function: self.texture_function,
            shading_model: None,
            scratch: Vec::new(),
            log,
        }
    }

    /// The region that the next frame draws into.
    pub fn draw_buffer(&self) -> (address: usize)
        ensures
            address == self@.device.draw_buffer,
    {
        self.draw_buffer
    }

    /// The region that is shown.
    pub fn display_buffer(&self) -> (address: usize)
        ensures
            address == self@.device.disp_buffer,
    {
        self.disp_buffer
    }

    /// The region that holds depth.
    pub fn depth_buffer(&self) -> (address: usize)
        ensures
            address == self@.device.depth_buffer,
    {
        self.depth_buffer
    }

    /// How many frames were opened and closed.
    pub fn frames_closed(&self) -> (n: u64)
        ensures
            n == self@.device.swaps,
    {
        self.frames
    }

    /// The texture function in force, if one was ever set.
    pub fn texture_function(&self) -> (f: Option<(TextureEffect, TextureColorComponent)>)
        ensures
            f == self@.device.texture_function,
    {
        self.texture_function
    }

    /// Hands out the operations queued since the last call, oldest first, for
    /// execution in that order.
    pub fn take_commands(&mut self) -> (commands: Vec<GuCommand>)
        ensures
            commands@ == old(self)@.pending,
            final(self)@ == (Session { pending: Seq::empty(), ..old(self)@ }),
            old(self).wf() ==> final(self).wf(),
    {
        self.log.take()
    }
}

/// The graphics engine with a command list open: one frame being recorded.
///
/// A frame is made by [`PspGfx::start_frame`] and ends in [`Frame::finish`],
/// which closes the list and returns the context. It holds the context for
/// as long as it lives.
#[must_use]
pub struct Frame {
    draw_buffer: usize,
    disp_buffer: usize,
    depth_buffer: usize,
    number: u64,
    texture_function: Option<(TextureEffect, TextureColorComponent)>,
    shading_model: Option<ShadingModel>,
    scratch: Vec<usize>,
    log: Recorder,
}

impl View for Frame {
    type V = Session;

    closed spec fn view(&self) -> Session {
        Session {
            device: Device {
                phase: Phase::Recording,
                display_on: true,
                draw_buffer: self.draw_buffer,
                disp_buffer: self.disp_buffer,
                depth_buffer: self.depth_buffer,
                lists: self.number as nat + 1,
                swaps: (self.number - 1) as nat,
                slots: self.scratch@.len(),
                texture_function: self.texture_function,
                shading_model: self.shading_model,
            },
            pending: self.log.pending@,
            issued: self.log.issued@,
        }
    }
}

impl Frame {
    /// Whether the operations issued so far are in order and have left the
    /// engine recording this frame, in the state that the frame reports.
    pub open spec fn wf(&self) -> bool {
        &&& run(self@.issued) == Some(self@.device)
        &&& self@.queue_is_recent()
        &&& self@.device.phase is Recording
        &&& self@.device.display_on
        &&& self@.device.lists == self@.device.swaps + 2
        &&& self@.frame_number() <= u64::MAX
        &&& self@.device.slots <= usize::MAX
    }

    /// Closes the frame and gives the context back.
    ///
    /// The close sequence is queued once: finish the list, wait until the
    /// engine has executed it, wait for the vertical blank, exchange the
    /// buffers. After it the region that this frame drew into is the one
    /// shown, and as many frames were closed as the number of this frame says.
    /// The frame is consumed, so it cannot be closed again.
    pub fn finish(self) -> (gfx: PspGfx)
        ensures
            self.wf() ==> gfx.wf(),
            gfx@ == self@.closed(),
    {
        let mut log = self.log;
        log.issue(GuCommand::Finish);
        log.issue(GuCommand::Sync);
        log.issue(GuCommand::WaitVblankStart);
        log.issue(GuCommand::SwapBuffers);
        assert(log.issued@ =~= self.log.issued@ + close_sequence());
        assert(log.pending@ =~= self.log.pending@ + close_sequence());
        PspGfx {
            draw_buffer: self.disp_buffer,
            disp_buffer: self.draw_buffer,
            depth_buffer: self.depth_buffer,
            frames: self.number,
            texture_function: self.texture_function,
            log,
        }
    }

    /// Clears the colour buffer to `color`.
    pub fn clear_color(&mut self, color: Color32)
        ensures
            old(self).wf() ==> final(self).wf(),
            final(self)@ == old(self)@.after(
                seq![GuCommand::ClearColor(color.abgr()), GuCommand::Clear(1)],
                old(self)@.device,
            ),
    {
        self.log.issue(GuCommand::ClearColor(color.as_abgr()));
        self.log.issue(GuCommand::Clear(COLOR_BUFFER_BIT));
        assert(self.log.issued@ =~= old(self).log.issued@ + seq![
            GuCommand::ClearColor(color.abgr()),
            GuCommand::Clear(1),
        ]);
        assert(self.log.pending@ =~= old(self).log.pending@ + seq![
            GuCommand::ClearColor(color.abgr()),
            GuCommand::Clear(1),
        ]);
    }

    /// Clears the depth buffer to `depth`.
    pub fn clear_depth(&mut self, depth: u32)
        ensures
            old(self).wf() ==> final(self).wf(),
            final(self)@ == old(self)@.after(
                seq![GuCommand::ClearDepth(depth), GuCommand::Clear(4)],
                old(self)@.device,
            ),
    {
        self.log.issue(GuCommand::ClearDepth(depth));
        self.log.issue(GuCommand::Clear(DEPTH_BUFFER_BIT));
        assert(self.log.issued@ =~= old(self).log.issued@ + seq![
            GuCommand::ClearDepth(depth),
            GuCommand::Clear(4),
        ]);
        assert(self.log.pending@ =~= old(self).log.pending@ + seq![
            GuCommand::ClearDepth(depth),
            GuCommand::Clear(4),
        ]);
    }

    /// Clears the colour buffer to `color` and the depth buffer to `depth`, in
    /// one clear with both bits set.
    pub fn clear_color_depth(&mut self, color: Color32, depth: u32)
        ensures
            old(self).wf() ==> final(self).wf(),
            final(self)@ == old(self)@.after(
                seq![
                    GuCommand::ClearColor(color.abgr()),
                    GuCommand::ClearDepth(depth),
                    GuCommand::Clear(5),
                ],
                old(self)@.device,
            ),
    {
        assert(COLOR_BUFFER_BIT | DEPTH_BUFFER_BIT == 5) by (bit_vector);
        self.log.issue(GuCommand::ClearColor(color.as_abgr()));
        self.log.issue(GuCommand::ClearDepth(depth));
        self.log.issue(GuCommand::Clear(COLOR_BUFFER_BIT | DEPTH_BUFFER_BIT));
        assert(self.log.issued@ =~= old(self).log.issued@ + seq![
            GuCommand::ClearColor(color.abgr()),
            GuCommand::ClearDepth(depth),
            GuCommand::Clear(5),
        ]);
        assert(self.log.pending@ =~= old(self).log.pending@ + seq![
            GuCommand::ClearColor(color.abgr()),
            GuCommand::ClearDepth(depth),
            GuCommand::Clear(5),
        ]);
    }

    /// Sets how textures are applied. Unlike the shading model, this setting
    /// does not end with the frame: it stays in force in the frames that
    /// follow, until it is set again.
    pub fn set_texture_function(
        &mut self,
        texture_effect: TextureEffect,
        texture_color_component: TextureColorComponent,
    )
        ensures
            old(self).wf() ==> final(self).wf(),
            final(self)@ == old(self)@.after(
                seq![GuCommand::TexFunc(texture_effect, texture_color_component)],
                Device {
                    texture_function: Some((texture_effect, texture_color_component)),
                    ..old(self)@.device
                },
            ),
    {
        let c = GuCommand::TexFunc(texture_effect, texture_color_component);
        self.log.issue(c);
        self.texture_function = Some((texture_effect, texture_color_component));
        assert(self.log.issued@ =~= old(self).log.issued@ + seq![c]);
        assert(self.log.pending@ =~= old(self).log.pending@ + seq![c]);
    }

    /// Sets how colour is interpolated. The setting holds for this frame
    /// only: the next frame starts with none.
    pub fn set_shading_model(&mut self, shading_model: ShadingModel)
        ensures
            old(self).wf() ==> final(self).wf(),
            final(self)@ == old(self)@.after(
                seq![GuCommand::ShadeModel(shading_model)],
                Device { shading_model: Some(shading_model), ..old(self)@.device },
            ),
    {
        let c = GuCommand::ShadeModel(shading_model);
        self.log.issue(c);
        self.shading_model = Some(shading_model);
        assert(self.log.issued@ =~= old(self).log.issued@ + seq![c]);
        assert(self.log.pending@ =~= old(self).log.pending@ + seq![c]);
    }

    /// Sets the current colour.
    pub fn set_color(&mut self, color: Color32)
        ensures
            old(self).wf() ==> final(self).wf(),
            final(self)@ == old(self)@.after(
                seq![GuCommand::Color(color.abgr())],
                old(self)@.device,
            ),
    {
        let c = GuCommand::Color(color.as_abgr());
        self.log.issue(c);
        assert(self.log.issued@ =~= old(self).log.issued@ + seq![c]);
        assert(self.log.pending@ =~= old(self).log.pending@ + seq![c]);
    }

    /// Restricts drawing to `scissor`. The rectangle is passed on as it is,
    /// whether or not it lies on the screen.
    pub fn set_scissor(&mut self, scissor: Rect)
        ensures
            old(self).wf() ==> final(self).wf(),
            final(self)@ == old(self)@.after(
                seq![GuCommand::Scissor { x: scissor.x, y: scissor.y, w: scissor.w, h: scissor.h }],
                old(self)@.device,
            ),
    {
        let c = GuCommand::Scissor { x: scissor.x, y: scissor.y, w: scissor.w, h: scissor.h };
        self.log.issue(c);
        assert(self.log.issued@ =~= old(self).log.issued@ + seq![c]);
        assert(self.log.pending@ =~= old(self).log.pending@ + seq![c]);
    }

    /// Carves the next block out of the scratch region of this frame, for
    /// `len` elements of layout `tag`, and returns the view of it.
    ///
    /// The view is good for draws of this frame only. Whoever performs the
    /// queued operation puts the elements into the block.
    pub fn get_memory<T>(&mut self, tag: T, len: usize) -> (buffer: TransientBuffer<T>)
        ensures
            old(self).wf() ==> final(self).wf(),
            final(self)@ == old(self)@.after(
                seq![GuCommand::GetMemory { slot: old(self)@.device.slots as usize, len }],
                Device { slots: old(self)@.device.slots + 1, ..old(self)@.device },
            ),
            buffer.spec_tag() == tag,
            buffer.spec_len() == len,
            buffer.spec_address() == (BufferSource::Scratch {
                frame: old(self)@.frame_number() as u64,
                slot: old(self)@.device.slots as usize,
            }),
            final(self)@.reads(buffer.spec_address()),
    {
        let slot = self.scratch.len();
        let c = GuCommand::GetMemory { slot, len };
        self.log.issue(c);
        self.scratch.push(len);
        proof {
            vstd::std_specs::vec::axiom_spec_len(&self.scratch);
        }
        assert(self.log.issued@ =~= old(self).log.issued@ + seq![c]);
        assert(self.log.pending@ =~= old(self).log.pending@ + seq![c]);
        TransientBuffer::new(tag, self.number, slot, len)
    }

    /// Whether a draw of this frame may read from `source`.
    fn may_read(&self, source: BufferSource) -> (ok: bool)
        ensures
            ok == self@.reads(source),
    {
        match source {
            BufferSource::Memory(_) => true,
            BufferSource::Scratch { frame, slot } => frame == self.number && slot
                < self.scratch.len(),
        }
    }

    /// The address that a draw gives for `source`.
    fn address_of(source: BufferSource) -> (address: BufferAddress)
        ensures
            address == resolve(source),
    {
        match source {
            BufferSource::Memory(address) => BufferAddress::Memory(address),
            BufferSource::Scratch { frame, slot } => BufferAddress::Scratch(slot),
        }
    }

    /// Draws the elements of `vertex_buf`, all of them and in their order.
    ///
    /// A transient buffer of another frame is refused with `StaleBuffer`, and
    /// nothing is queued.
    pub fn draw_array<V: Buffer>(&mut self, primitive: GuPrimitive, vertex_buf: &V) -> (r: Result<
        (),
        GfxError,
    >) where V::Item: Vertex
        ensures
            old(self).wf() ==> final(self).wf(),
            old(self)@.reads(vertex_buf.spec_address()) ==> r is Ok && final(self)@ == old(
                self,
            )@.after(
                seq![
                    GuCommand::DrawArray {
                        primitive,
                        vtype: vertex_buf.spec_tag().spec_vtype(),
                        count: vertex_buf.spec_len(),
                        indices: None,
                        vertices: resolve(vertex_buf.spec_address()),
                    },
                ],
                old(self)@.device,
            ),
            !old(self)@.reads(vertex_buf.spec_address()) ==> r == Err::<(), GfxError>(
                GfxError::StaleBuffer,
            ) && final(self)@ == old(self)@,
    {
        let source = vertex_buf.raw_address();
        if !self.may_read(source) {
            return Err(GfxError::StaleBuffer);
        }
        let c = GuCommand::DrawArray {
            primitive,
            vtype: vertex_buf.element_type_tag().vtype(),
            count: vertex_buf.len(),
            indices: None,
            vertices: Self::address_of(source),
        };
        self.log.issue(c);
        assert(self.log.issued@ =~= old(self).log.issued@ + seq![c]);
        assert(self.log.pending@ =~= old(self).log.pending@ + seq![c]);
        Ok(())
    }

    /// Draws the elements of `vertex_buf` that the indices of `index_buf`
    /// name, one per index and in the order of the indices.
    ///
    /// The count of the draw is the length of the index buffer, whatever the
    /// length of the vertex buffer. No index is checked against the vertex
    /// buffer: what an index out of range draws is up to the hardware. A
    /// transient buffer of another frame, on either side, is refused with
    /// `StaleBuffer`, and nothing is queued.
    pub fn draw_array_indexed<V: Buffer, I: Buffer>(
        &mut self,
        primitive: GuPrimitive,
        vertex_buf: &V,
        index_buf: &I,
    ) -> (r: Result<(), GfxError>) where V::Item: Vertex, I::Item: IndexItem
        ensures
            old(self).wf() ==> final(self).wf(),
            old(self)@.reads(vertex_buf.spec_address()) && old(self)@.reads(
                index_buf.spec_address(),
            ) ==> r is Ok && final(self)@ == old(self)@.after(
                seq![
                    GuCommand::DrawArray {
                        primitive,
                        vtype: vertex_buf.spec_tag().spec_vtype()
                            | index_buf.spec_tag().spec_vtype(),
                        count: index_buf.spec_len(),
                        indices: Some(resolve(index_buf.spec_address())),
                        vertices: resolve(vertex_buf.spec_address()),
                    },
                ],
                old(self)@.device,
            ),
            !(old(self)@.reads(vertex_buf.spec_address()) && old(self)@.reads(
                index_buf.spec_address(),
            )) ==> r == Err::<(), GfxError>(GfxError::StaleBuffer) && final(self)@ == old(self)@,
    {
        let vertices = vertex_buf.raw_address();
        let indices = index_buf.raw_address();
        if !self.may_read(vertices) || !self.may_read(indices) {
            return Err(GfxError::StaleBuffer);
        }
        let c = GuCommand::DrawArray {
            primitive,
            vtype: vertex_buf.element_type_tag().vtype() | index_buf.element_type_tag().vtype(),
            count: index_buf.len(),
            indices: Some(Self::address_of(indices)),
            vertices: Self::address_of(vertices),
        };
        self.log.issue(c);
        assert(self.log.issued@ =~= old(self).log.issued@ + seq![c]);
        assert(self.log.pending@ =~= old(self).log.pending@ + seq![c]);
        Ok(())
    }

    /// The number of this frame: 1 for the first frame of the context.
    pub fn number(&self) -> (n: u64)
        ensures
            n == self@.frame_number(),
    {
        self.number
    }

    /// The texture function in force, if one was ever set, in this frame or
    /// in an earlier one.
    pub fn texture_function(&self) -> (f: Option<(TextureEffect, TextureColorComponent)>)
        ensures
            f == self@.device.texture_function,
    {
        self.texture_function
    }

    /// The shading model set in this frame, if any.
    pub fn shading_model(&self) -> (m: Option<ShadingModel>)
        ensures
            m == self@.device.shading_model,
    {
        self.shading_model
    }

    /// Hands out the operations queued since the last call, oldest first, for
    /// execution in that order.
    pub fn take_commands(&mut self) -> (commands: Vec<GuCommand>)
        ensures
            commands@ == old(self)@.pending,
            final(self)@ == (Session { pending: Seq::empty(), ..old(self)@ }),
            old(self).wf() ==> final(self).wf(),
    {
        self.log.take()
    }
}

/// The close sequence runs exactly once per frame. The history of a context
/// is in order, it holds one opening for the set-up list and one for each
/// frame, and one exchange of the buffers for each frame: as many as the
/// context counts.
pub proof fn lemma_every_frame_closed_once(gfx: PspGfx)
    requires
        gfx.wf(),
    ensures
        run(gfx@.issued) is Some,
        exchanges(gfx@.issued) == gfx@.device.swaps,
        starts(gfx@.issued) == gfx@.device.swaps + 1,
{
    lemma_one_close_per_frame(gfx@.issued);
}

/// While a frame is open, the history of its context is in order and holds
/// one opening more than for the frames before it, and no exchange yet for
/// this frame.
pub proof fn lemma_open_frame_not_closed_yet(frame: Frame)
    requires
        frame.wf(),
    ensures
        run(frame@.issued) is Some,
        starts(frame@.issued) == frame@.frame_number() + 1,
        exchanges(frame@.issued) + 1 == frame@.frame_number(),
{
    lemma_one_close_per_frame(frame@.issued);
}

/// Frames are numbered in the order in which they are opened: the frame
/// opened after a frame was closed has the next number.
pub proof fn lemma_frame_numbers_grow(s: Session)
    requires
        s.device.lists >= 1,
    ensures
        s.closed().opened().frame_number() == s.frame_number() + 1,
{
}

/// A transient buffer dies with its frame. A scratch block that a frame may
/// read is refused by every frame with a later number, whatever that frame
/// has carved out itself.
pub proof fn lemma_transient_dies_with_frame(made_in: Session, later: Session, source: BufferSource)
    requires
        source is Scratch,
        made_in.reads(source),
        later.frame_number() > made_in.frame_number(),
    ensures
        !later.reads(source),
{
}

/// Two frames in a row show the two colour regions in turn: closing a frame
/// shows the region that it drew into, and closing the next frame shows the
/// other region again.
pub proof fn lemma_frames_alternate(s: Session)
    ensures
        s.closed().device.disp_buffer == s.device.draw_buffer,
        s.closed().device.draw_buffer == s.device.disp_buffer,
        s.closed().opened().closed().device.disp_buffer == s.device.disp_buffer,
        s.closed().opened().closed().device.draw_buffer == s.device.draw_buffer,
{
}

} // verus!
