use vstd::prelude::*;
use vstd::arithmetic::div_mod::{lemma_mod_self_0, lemma_small_mod};
use crate::error::ErrorKind;
use crate::graphics::buffer::{Buffer, rect_written};
use crate::graphics::connector::Connector;
use crate::graphics::crtc::{CRTC, CrtcSetting};
use crate::graphics::draw::{DrawCommand, draw_order, is_draw_order};
use crate::graphics::enums::{ConnectorType, ScreenFlags};
use crate::graphics::framebuffer::Framebuffer;
use crate::graphics::mode::{ModeInfo, select_mode, selected_mode};

verus! {

/// Ring depth for a set of flags: the last buffering flag decides; with
/// none, a single buffer.
pub open spec fn ring_depth(flags: Seq<ScreenFlags>) -> nat
    decreases flags.len(),
{
    if flags.len() == 0 {
        1
    } else {
        match flags.last() {
            ScreenFlags::DoubleBuffered => 2,
            ScreenFlags::TripleBuffered => 3,
            ScreenFlags::OptimalResolution => ring_depth(flags.drop_last()),
        }
    }
}

/// How many buffers a screen built with `flags` rotates through.
pub fn buffer_count(flags: &[ScreenFlags]) -> (r: usize)
    ensures
        r == ring_depth(flags@),
        1 <= r <= 3,
{
    let mut count: usize = 1;
    let mut k: usize = 0;
    while k < flags.len()
        invariant
            k <= flags@.len(),
            count == ring_depth(flags@.subrange(0, k as int)),
            1 <= count <= 3,
        decreases flags@.len() - k,
    {
        proof {
            assert(flags@.subrange(0, k + 1).drop_last() =~= flags@.subrange(0, k as int));
        }
        match flags[k] {
            ScreenFlags::DoubleBuffered => count = 2,
            ScreenFlags::TripleBuffered => count = 3,
            ScreenFlags::OptimalResolution => {},
        }
        k = k + 1;
    }
    proof {
        assert(flags@.subrange(0, k as int) =~= flags@);
    }
    count
}

/// Whether `flags` asks for the optimal resolution.
pub open spec fn wants_optimal(flags: Seq<ScreenFlags>) -> bool {
    exists|k: int| 0 <= k < flags.len() && flags[k] == ScreenFlags::OptimalResolution
}

/// What building a screen on a connector takes: the CRTC to drive it, the
/// mode and its size, and how many buffers to allocate at that size.
#[derive(Debug, Clone, Copy, PartialEq, Eq, Structural)]
pub struct ScreenPlan {
    pub crtc_id: u32,
    pub mode: usize,
    pub width: u32,
    pub height: u32,
    pub refresh: u32,
    pub buffer_count: usize,
}

/// Whether a command fits the buffer it is drawn into.
pub open spec fn command_fits(b: Buffer, c: DrawCommand) -> bool {
    b.write_check(c.x as nat, c.y as nat, c.width as nat, c.height as nat, c.pixels@.len()) is Ok
}

/// `mem` after drawing the commands `cmds[order[0]]`, `cmds[order[1]]`, ...
pub open spec fn paint_all(mem: Seq<u32>, b: Buffer, cmds: Seq<DrawCommand>, order: Seq<usize>) -> Seq<
    u32,
>
    decreases order.len(),
{
    if order.len() == 0 {
        mem
    } else {
        let c = cmds[order.last() as int];
        rect_written(
            paint_all(mem, b, cmds, order.drop_last()),
            b.pitch() as int,
            c.x as int,
            c.y as int,
            c.width as int,
            c.height as int,
            c.pixels@,
        )
    }
}

/// Every command, taken in `order`, fits `b`.
pub open spec fn all_fit(b: Buffer, cmds: Seq<DrawCommand>, order: Seq<usize>) -> bool {
    forall|j: int| 0 <= j < order.len() ==> command_fits(b, #[trigger] cmds[order[j] as int])
}

/// Taken in `order`, the first command that does not fit `b` fails with `e`.
pub open spec fn first_failure(b: Buffer, cmds: Seq<DrawCommand>, order: Seq<usize>, e: ErrorKind) -> bool {
    exists|k: int|
        0 <= k < order.len() && {
            let c = #[trigger] cmds[order[k] as int];
            &&& b.write_check(c.x as nat, c.y as nat, c.width as nat, c.height as nat, c.pixels@.len())
                == Err::<(), ErrorKind>(e)
            &&& forall|j: int| 0 <= j < k ==> command_fits(b, #[trigger] cmds[order[j] as int])
        }
}

/// The planes of queued commands.
pub open spec fn planes_of(cmds: Seq<DrawCommand>) -> Seq<u32> {
    Seq::new(cmds.len(), |k: int| cmds[k].plane)
}

/// One output: a connector, the CRTC that drives it, and a ring of buffers
/// with their framebuffers. One buffer of the ring is on screen; writes go
/// to the one after it.
#[derive(Debug)]
pub struct Screen {
    device: i32,
    mode: usize,
    index: usize,
    buffers: Vec<Buffer>,
    framebuffers: Vec<Framebuffer>,
    connector: Connector,
    crtc: CRTC,
    queue: Vec<DrawCommand>,
    vsync: bool,
}

impl Screen {
    /// The ring: one buffer and one framebuffer per slot, at least one slot,
    /// the current index inside it, and a mode of the connector.
    pub closed spec fn wf(&self) -> bool {
        &&& self.buffers@.len() >= 1
        &&& self.framebuffers@.len() == self.buffers@.len()
        &&& self.index < self.buffers@.len()
        &&& self.mode < self.connector@.modes.len()
        &&& forall|k: int| 0 <= k < self.buffers@.len() ==> (#[trigger] self.buffers@[k]).wf()
        &&& forall|k: int|
            0 <= k < self.buffers@.len() ==> (#[trigger] self.buffers@[k]).spec_width()
                == self.connector@.modes[self.mode as int].hdisplay && self.buffers@[k].spec_height()
                == self.connector@.modes[self.mode as int].vdisplay
    }

    pub closed spec fn ring_len(&self) -> nat {
        self.buffers@.len()
    }

    /// The ring slot on screen.
    pub closed spec fn current(&self) -> nat {
        self.index as nat
    }

    /// The ring slot the next write goes to.
    pub open spec fn next(&self) -> nat {
        (self.current() + 1) % self.ring_len()
    }

    pub closed spec fn buffer_at(&self, k: nat) -> Buffer {
        self.buffers@[k as int]
    }

    pub closed spec fn framebuffer_at(&self, k: nat) -> Framebuffer {
        self.framebuffers@[k as int]
    }

    pub closed spec fn pending(&self) -> Seq<DrawCommand> {
        self.queue@
    }

    pub closed spec fn spec_mode(&self) -> nat {
        self.mode as nat
    }

    pub closed spec fn spec_connector(&self) -> crate::graphics::connector::ConnectorView {
        self.connector@
    }

    pub closed spec fn spec_crtc(&self) -> CRTC {
        self.crtc
    }

    pub closed spec fn spec_device(&self) -> i32 {
        self.device
    }

    /// Whether presenting waits for vertical sync.
    pub closed spec fn spec_vsync(&self) -> bool {
        self.vsync
    }

    /// `after` has this screen's ring, mode, connector, CRTC, device and
    /// vsync setting.
    pub open spec fn keeps_setup(&self, after: &Screen) -> bool {
        &&& after.ring_len() == self.ring_len()
        &&& forall|k: nat| k < self.ring_len() ==> #[trigger] after.buffer_at(k) == self.buffer_at(k)
        &&& forall|k: nat| k < self.ring_len() ==> #[trigger] after.framebuffer_at(k) == self.framebuffer_at(k)
        &&& after.spec_mode() == self.spec_mode()
        &&& after.spec_connector() == self.spec_connector()
        &&& after.spec_crtc() == self.spec_crtc()
        &&& after.spec_device() == self.spec_device()
        &&& after.spec_vsync() == self.spec_vsync()
    }

    /// The mode the screen shows.
    pub open spec fn current_mode(&self) -> ModeInfo {
        self.spec_connector().modes[self.spec_mode() as int]
    }

    /// The programming that restores the CRTC's captured state.
    pub open spec fn restore_setting(&self) -> CrtcSetting {
        self.spec_crtc().restore_setting(self.spec_connector().id)
    }

    /// The plan for a screen on `connector`: its encoder's CRTC, the mode the
    /// flags select, and the ring depth they ask for. A connector whose
    /// encoder is driven by no CRTC cannot become a screen.
    pub fn plan(connector: &Connector, flags: &[ScreenFlags]) -> (r: Result<ScreenPlan, ErrorKind>)
        requires
            connector.wf(),
        ensures
            connector@.encoder.crtc_id == 0 ==> r == Err::<ScreenPlan, ErrorKind>(
                ErrorKind::CRTC_NOT_FOUND,
            ),
            connector@.encoder.crtc_id != 0 ==> (r matches Ok(p) && p.crtc_id
                == connector@.encoder.crtc_id && p.mode == selected_mode(
                connector@.modes,
                wants_optimal(flags@),
            ) && p.mode < connector@.modes.len() && p.width
                == connector@.modes[p.mode as int].hdisplay && p.height
                == connector@.modes[p.mode as int].vdisplay && p.refresh
                == connector@.modes[p.mode as int].vrefresh && p.buffer_count == ring_depth(
                flags@,
            )),
    {
        let crtc_id = connector.encoder().crtc_id();
        if crtc_id == 0 {
            return Err(ErrorKind::CRTC_NOT_FOUND);
        }
        let mut optimal = false;
        let mut k: usize = 0;
        while k < flags.len()
            invariant
                k <= flags@.len(),
                optimal <==> exists|j: int|
                    0 <= j < k && flags@[j] == ScreenFlags::OptimalResolution,
            decreases flags@.len() - k,
        {
            if flags[k] == ScreenFlags::OptimalResolution {
                optimal = true;
            }
            k = k + 1;
        }
        let modes = connector.modes();
        let mode = select_mode(modes, optimal);
        let m = modes[mode];
        Ok(
            ScreenPlan {
                crtc_id,
                mode,
                width: m.hdisplay as u32,
                height: m.vdisplay as u32,
                refresh: m.vrefresh,
                buffer_count: buffer_count(flags),
            },
        )
    }

    /// A screen on `connector`, driven by `crtc` in the mode at `mode`, with
    /// the ring of buffers and the framebuffers registered for them, slot by
    /// slot. Slot 0 counts as on screen.
    pub fn new(
        device: i32,
        connector: Connector,
        crtc: CRTC,
        mode: usize,
        buffers: Vec<Buffer>,
        framebuffers: Vec<Framebuffer>,
    ) -> (r: Screen)
        requires
            buffers@.len() >= 1,
            framebuffers@.len() == buffers@.len(),
            mode < connector@.modes.len(),
            forall|k: int| 0 <= k < buffers@.len() ==> (#[trigger] buffers@[k]).wf(),
            forall|k: int|
                0 <= k < buffers@.len() ==> (#[trigger] buffers@[k]).spec_width()
                    == connector@.modes[mode as int].hdisplay && buffers@[k].spec_height()
                    == connector@.modes[mode as int].vdisplay,
        ensures
            r.wf(),
            r.current() == 0,
            r.ring_len() == buffers@.len(),
            forall|k: nat| k < buffers@.len() ==> r.buffer_at(k) == buffers@[k as int],
            forall|k: nat| k < buffers@.len() ==> r.framebuffer_at(k) == framebuffers@[k as int],
            r.pending().len() == 0,
            r.spec_mode() == mode,
            r.spec_connector() == connector@,
            r.spec_crtc() == crtc,
            r.spec_device() == device,
    {
        Screen {
            device,
            mode,
            index: 0,
            buffers,
            framebuffers,
            connector,
            crtc,
            queue: Vec::new(),
            vsync: true,
        }
    }

    pub fn id(&self) -> (r: u32)
        ensures
            r == self.spec_connector().id,
    {
        self.connector.id()
    }

    pub fn device(&self) -> (r: i32)
        ensures
            r == self.spec_device(),
    {
        self.device
    }

    pub fn connector_type(&self) -> (r: ConnectorType)
        ensures
            r == self.spec_connector().connector_type,
    {
        self.connector.connector_type()
    }

    #[allow(non_snake_case)]
    pub fn mmWidth(&self) -> (r: u32)
        ensures
            r == self.spec_connector().mm_width,
    {
        self.connector.mmWidth()
    }

    #[allow(non_snake_case)]
    pub fn mmHeight(&self) -> (r: u32)
        ensures
            r == self.spec_connector().mm_height,
    {
        self.connector.mmHeight()
    }

    pub fn subpixel(&self) -> (r: u32)
        ensures
            r == self.spec_connector().subpixel,
    {
        self.connector.subpixel()
    }

    pub fn width(&self) -> (r: u32)
        requires
            self.wf(),
        ensures
            r == self.current_mode().hdisplay,
    {
        self.connector.modes()[self.mode].hdisplay as u32
    }

    pub fn height(&self) -> (r: u32)
        requires
            self.wf(),
        ensures
            r == self.current_mode().vdisplay,
    {
        self.connector.modes()[self.mode].vdisplay as u32
    }

    pub fn refresh(&self) -> (r: u32)
        requires
            self.wf(),
        ensures
            r == self.current_mode().vrefresh,
    {
        self.connector.modes()[self.mode].vrefresh
    }

    pub fn mode(&self) -> (r: usize)
        ensures
            r == self.spec_mode(),
    {
        self.mode
    }

    pub fn buffer_count(&self) -> (r: usize)
        ensures
            r == self.ring_len(),
    {
        self.buffers.len()
    }

    /// The ring slot on screen.
    pub fn index(&self) -> (r: usize)
        ensures
            r == self.current(),
    {
        self.index
    }

    /// The ring slot the next write, clear or swap draws into.
    pub fn next_index(&self) -> (r: usize)
        requires
            self.wf(),
        ensures
            r == self.next(),
            r < self.ring_len(),
    {
        let n = self.buffers.len();
        (self.index + 1) % n
    }

    /// The buffer in ring slot `k`.
    pub fn buffer(&self, k: usize) -> (r: &Buffer)
        requires
            self.wf(),
            k < self.ring_len(),
        ensures
            *r == self.buffer_at(k as nat),
            r.wf(),
    {
        &self.buffers[k]
    }

    /// The framebuffer of ring slot `k`.
    pub fn framebuffer(&self, k: usize) -> (r: &Framebuffer)
        requires
            self.wf(),
            k < self.ring_len(),
        ensures
            *r == self.framebuffer_at(k as nat),
    {
        &self.framebuffers[k]
    }

    /// Queues a command for the next swap; nothing is drawn yet.
    pub fn submit(&mut self, command: DrawCommand)
        ensures
            final(self).pending() == old(self).pending().push(command),
            final(self).current() == old(self).current(),
            old(self).keeps_setup(final(self)),
            old(self).wf() ==> final(self).wf(),
    {
        self.queue.push(command);
    }

    /// Writes pixels into the buffer after the one on screen, which is mapped
    /// as `mapped`.
    pub fn write(&self, x: u32, y: u32, width: u32, height: u32, pixels: &[u32], mapped: &mut [u32]) -> (r:
        Result<(), ErrorKind>)
        requires
            self.wf(),
            old(mapped)@.len() >= self.buffer_at(self.next()).mapped_len(),
        ensures
            r == self.buffer_at(self.next()).write_check(
                x as nat,
                y as nat,
                width as nat,
                height as nat,
                pixels@.len(),
            ),
            r is Ok ==> final(mapped)@ == rect_written(
                old(mapped)@,
                self.buffer_at(self.next()).pitch() as int,
                x as int,
                y as int,
                width as int,
                height as int,
                pixels@,
            ),
            r is Err ==> final(mapped)@ == old(mapped)@,
    {
        let next = self.next_index();
        self.buffers[next].write(x, y, width, height, pixels, mapped)
    }

    /// Fills the buffer after the one on screen, mapped as `mapped`, with 0.
    pub fn clear(&self, mapped: &mut [u32]) -> (r: Result<(), ErrorKind>)
        requires
            self.wf(),
            old(mapped)@.len() >= self.buffer_at(self.next()).mapped_len(),
        ensures
            r is Ok,
            final(mapped)@ == rect_written(
                old(mapped)@,
                self.buffer_at(self.next()).pitch() as int,
                0,
                0,
                self.buffer_at(self.next()).spec_width() as int,
                self.buffer_at(self.next()).spec_height() as int,
                Seq::new(
                    self.buffer_at(self.next()).spec_width() * self.buffer_at(self.next()).spec_height(),
                    |i: int| 0u32,
                ),
            ),
    {
        let next = self.next_index();
        self.buffers[next].clear(mapped)
    }

    /// Whether the queued commands, taken in `order`, all fit `b`; if not,
    /// the error of the first in that order that does not.
    fn check_in_order(&self, b: &Buffer, order: &Vec<usize>) -> (r: Result<(), ErrorKind>)
        requires
            b.wf(),
            forall|k: int| 0 <= k < order@.len() ==> order@[k] < self.pending().len(),
        ensures
            r is Ok <==> all_fit(*b, self.pending(), order@),
            r matches Err(e) ==> first_failure(*b, self.pending(), order@, e),
    {
        let mut k: usize = 0;
        while k < order.len()
            invariant
                b.wf(),
                forall|i: int| 0 <= i < order@.len() ==> order@[i] < self.pending().len(),
                k <= order@.len(),
                forall|j: int| 0 <= j < k ==> command_fits(*b, #[trigger] self.pending()[order@[j] as int]),
            decreases order@.len() - k,
        {
            let c = &self.queue[order[k]];
            let probe = b.check_write(c.x, c.y, c.width, c.height, c.pixels.len());
            if let Err(e) = probe {
                return Err(e);
            }
            k = k + 1;
        }
        Ok(())
    }

    /// Draws the queued commands into the buffer after the one on screen
    /// (mapped as `mapped`), lower planes first and, within a plane, in the
    /// order they were submitted; then moves the ring on to that buffer and
    /// returns the CRTC programming that presents it. If a command does not
    /// fit the buffer, the error of the first such command in drawing order
    /// is returned, nothing is drawn and the ring stays. The queue is empty
    /// afterwards either way.
    pub fn swap_buffers(&mut self, mapped: &mut [u32]) -> (r: Result<CrtcSetting, ErrorKind>)
        requires
            old(self).wf(),
            old(mapped)@.len() >= old(self).buffer_at(old(self).next()).mapped_len(),
        ensures
            final(self).wf(),
            final(self).pending().len() == 0,
            old(self).keeps_setup(final(self)),
            exists|order: Seq<usize>| {
                let b = old(self).buffer_at(old(self).next());
                &&& #[trigger] is_draw_order(planes_of(old(self).pending()), order)
                &&& match r {
                    Ok(setting) => {
                        &&& all_fit(b, old(self).pending(), order)
                        &&& final(self).current() == old(self).next()
                        &&& setting == old(self).spec_crtc().set_spec(
                            old(self).spec_connector().id,
                            old(self).current_mode(),
                            old(self).framebuffer_at(old(self).next()),
                        )
                        &&& final(mapped)@ == paint_all(old(mapped)@, b, old(self).pending(), order)
                    },
                    Err(e) => {
                        &&& first_failure(b, old(self).pending(), order, e)
                        &&& final(self).current() == old(self).current()
                        &&& final(mapped)@ == old(mapped)@
                    },
                }
            },
    {
        let next = self.next_index();
        let mut planes: Vec<u32> = Vec::new();
        let mut k: usize = 0;
        while k < self.queue.len()
            invariant
                k <= self.pending().len(),
                planes@ == planes_of(self.pending()).subrange(0, k as int),
            decreases self.pending().len() - k,
        {
            planes.push(self.queue[k].plane);
            k = k + 1;
            proof {
                assert(planes@ =~= planes_of(self.pending()).subrange(0, k as int));
            }
        }
        proof {
            assert(planes@ =~= planes_of(self.pending()));
        }
        let order = draw_order(planes.as_slice());
        let checked = self.check_in_order(&self.buffers[next], &order);
        if let Err(e) = checked {
            self.queue.clear();
            return Err(e);
        }
        let ghost mem0 = mapped@;
        let mut j: usize = 0;
        while j < order.len()
            invariant
                self.wf(),
                next == self.next(),
                is_draw_order(planes_of(self.pending()), order@),
                all_fit(self.buffer_at(self.next()), self.pending(), order@),
                mapped@.len() == mem0.len(),
                mem0.len() >= self.buffer_at(self.next()).mapped_len(),
                j <= order@.len(),
                mapped@ == paint_all(mem0, self.buffer_at(self.next()), self.pending(), order@.subrange(0, j as int)),
            decreases order@.len() - j,
        {
            let c = &self.queue[order[j]];
            let ghost cmd = self.pending()[order@[j as int] as int];
            assert(command_fits(self.buffer_at(self.next()), cmd));
            let res = self.buffers[next].write(c.x, c.y, c.width, c.height, c.pixels.as_slice(), mapped);
            proof {
                assert(order@.subrange(0, j + 1).drop_last() =~= order@.subrange(0, j as int));
            }
            j = j + 1;
        }
        proof {
            assert(order@.subrange(0, j as int) =~= order@);
        }
        let mode = self.connector.modes()[self.mode];
        let setting = self.crtc.set(self.connector.id(), mode, &self.framebuffers[next]);
        self.queue.clear();
        self.index = next;
        Ok(setting)
    }

    /// The CRTC programming that restores the display to the state captured
    /// when the screen was built. The screen is left as it was, so disposing
    /// again gives the same programming.
    pub fn dispose(&mut self) -> (r: CrtcSetting)
        ensures
            *final(self) == *old(self),
            r == old(self).restore_setting(),
    {
        self.restore()
    }

    /// The CRTC programming that restores the captured state.
    pub fn restore(&self) -> (r: CrtcSetting)
        ensures
            r == self.restore_setting(),
    {
        self.crtc.restore(self.connector.id())
    }

    pub fn set_vsync(&mut self, vsync: bool)
        ensures
            final(self).spec_vsync() == vsync,
            final(self).wf() == old(self).wf(),
            final(self).current() == old(self).current(),
            final(self).ring_len() == old(self).ring_len(),
            final(self).pending() == old(self).pending(),
    {
        self.vsync = vsync;
    }

    pub fn vsync(&self) -> (r: bool)
        ensures
            r == self.spec_vsync(),
    {
        self.vsync
    }
}

/// With two or more buffers in the ring, the buffer the next write goes to
/// is never the one on screen; so after a swap, which puts the buffer just
/// drawn on screen, the next write goes elsewhere.
pub proof fn lemma_next_is_offscreen(s: Screen)
    requires
        s.wf(),
        s.ring_len() >= 2,
    ensures
        s.next() != s.current(),
        s.next() < s.ring_len(),
{
    assert(s.current() < s.ring_len());
    if s.current() + 1 < s.ring_len() {
        lemma_small_mod(s.current() + 1, s.ring_len());
    } else {
        lemma_mod_self_0(s.ring_len() as int);
    }
}

/// Disposing a screen leaves it as it was, so disposing it again gives the
/// same restoring programming: the captured mode, position and buffer.
pub proof fn lemma_dispose_twice(first: Screen, second: Screen)
    requires
        second == first,
    ensures
        second.restore_setting() == first.restore_setting(),
        second.restore_setting().fb_id == first.spec_crtc().saved().buffer_id,
        second.restore_setting().x == first.spec_crtc().saved().x,
        second.restore_setting().y == first.spec_crtc().saved().y,
        second.restore_setting().mode == first.spec_crtc().saved().mode,
{
}

} // verus!
