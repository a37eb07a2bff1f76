//! The device's real-time core: the interrupt handlers (tick, delimiter
//! match, receive complete, transmit complete) and the main loop's poll,
//! coordinating through pool-backed buffers, the message accumulator, and
//! the ready and transmit-in-progress state. Each method runs as one
//! critical section.
use crate::controller::{executed, lemma_reply_fits, started, Controller};
use crate::message::{
    message_bytes, message_clear, message_extend, message_new, message_slice, MESSAGE_CAPACITY,
};
use crate::pool::{BufferPool, FrameBuffer, FRAME_CAPACITY};
use crate::protocol::{command_of, parse_command, DELIMITER};
use vstd::prelude::*;

verus! {

/// Frame buffers in the device's pool.
pub const POOL_BUFFERS: usize = 8;

/// What can be observed of the device.
pub struct DeviceView {
    pub controller: Controller,
    pub millis: u32,
    /// The reassembled message waiting for the main loop.
    pub message: Seq<u8>,
    /// A complete message waits for the main loop.
    pub message_ready: bool,
    /// What the receive buffer holds so far.
    pub receiving: Seq<u8>,
    /// The reply on its way out, if one is.
    pub transmitting: Option<Seq<u8>>,
    /// Buffers idle in the pool.
    pub buffers_idle: nat,
}

/// Buffers that some holder owns: the receive buffer always, and the
/// transmit buffer while a reply is on its way out.
pub open spec fn buffers_held(v: DeviceView) -> nat {
    if v.transmitting is Some { 2 } else { 1 }
}

/// The millisecond counter one tick later; it wraps at its width.
pub open spec fn next_millis(m: u32) -> u32 {
    if m == u32::MAX {
        0
    } else {
        (m + 1) as u32
    }
}

/// `message` with `received` appended, when the two fit together.
pub open spec fn appended(message: Seq<u8>, received: Seq<u8>) -> Seq<u8> {
    if message.len() + received.len() <= MESSAGE_CAPACITY {
        message + received
    } else {
        message
    }
}

/// After the receive buffer is swapped for a fresh one and its bytes join
/// the message; with the pool empty nothing changes.
pub open spec fn after_swap(v: DeviceView) -> DeviceView {
    if v.buffers_idle == 0 {
        v
    } else {
        DeviceView { receiving: Seq::empty(), message: appended(v.message, v.receiving), ..v }
    }
}

/// After the delimiter-match or the receive-complete interrupt: the swap,
/// and the message is marked ready.
pub open spec fn after_match(v: DeviceView) -> DeviceView {
    if v.buffers_idle == 0 {
        v
    } else {
        DeviceView { message_ready: true, ..after_swap(v) }
    }
}

/// After one byte arrives: the receive DMA stores it while there is room;
/// the delimiter raises the match interrupt, and a full buffer the
/// receive-complete interrupt.
pub open spec fn after_byte(v: DeviceView, b: u8) -> DeviceView {
    let w = if v.receiving.len() < FRAME_CAPACITY {
        DeviceView { receiving: v.receiving.push(b), ..v }
    } else {
        v
    };
    if b == DELIMITER {
        after_match(w)
    } else if w.receiving.len() == FRAME_CAPACITY {
        after_match(w)
    } else {
        w
    }
}

/// After the transmit-complete interrupt: the sent buffer is back in the
/// pool.
pub open spec fn after_sent(v: DeviceView) -> DeviceView {
    match v.transmitting {
        Some(_) => DeviceView { transmitting: None, buffers_idle: v.buffers_idle + 1, ..v },
        None => v,
    }
}

/// After one pass of the main loop. A ready message is parsed, carried
/// out, and answered with exactly one reply, once the transmitter is free
/// and a buffer is idle; until then it waits, untouched.
pub open spec fn after_poll(v: DeviceView) -> DeviceView {
    if !v.message_ready || v.transmitting is Some || v.buffers_idle == 0 {
        v
    } else {
        let (c, reply) = executed(v.controller, command_of(v.message), v.millis);
        DeviceView {
            controller: c,
            message: Seq::empty(),
            message_ready: false,
            transmitting: Some(reply),
            buffers_idle: (v.buffers_idle - 1) as nat,
            ..v
        }
    }
}

/// The device: application state and peripherals, the millisecond clock,
/// the buffer pool and its holders, and the message accumulator.
pub struct Device {
    controller: Controller,
    millis: u32,
    pool: BufferPool,
    receiving: FrameBuffer,
    transmitting: Option<FrameBuffer>,
    message: heapless::Vec<u8, 100>,
    message_ready: bool,
}

impl View for Device {
    type V = DeviceView;

    closed spec fn view(&self) -> DeviceView {
        DeviceView {
            controller: self.controller,
            millis: self.millis,
            message: message_bytes(self.message),
            message_ready: self.message_ready,
            receiving: self.receiving@,
            transmitting: match self.transmitting {
                Some(t) => Some(t@),
                None => None,
            },
            buffers_idle: self.pool.idle().len(),
        }
    }
}

impl Device {
    /// Buffers in flight are exactly those that a holder owns, the
    /// holders own distinct buffers, and the bytes held fit.
    pub closed spec fn wf(&self) -> bool {
        &&& self.controller.wf()
        &&& self.pool.wf()
        &&& self.pool.capacity() == POOL_BUFFERS
        &&& self.pool.lent() == match self.transmitting {
            Some(t) => set![self.receiving.slot(), t.slot()],
            None => set![self.receiving.slot()],
        }
        &&& self.transmitting matches Some(t) ==> t.slot() != self.receiving.slot()
        &&& self.receiving@.len() <= FRAME_CAPACITY
        &&& message_bytes(self.message).len() <= MESSAGE_CAPACITY
    }

    /// A device just started: the PWM timer clocked at `clock_hz`, one
    /// buffer set up for reception, the others idle.
    pub fn new(clock_hz: u32) -> (r: Self)
        ensures
            r.wf(),
            r@ == (DeviceView {
                controller: started(clock_hz),
                millis: 0,
                message: Seq::empty(),
                message_ready: false,
                receiving: Seq::empty(),
                transmitting: None,
                buffers_idle: (POOL_BUFFERS - 1) as nat,
            }),
    {
        let mut pool = BufferPool::new(POOL_BUFFERS);
        let receiving = pool.acquire().unwrap();
        proof {
            assert(pool.lent() =~= set![receiving.slot()]);
        }
        let r = Device {
            controller: Controller::new(clock_hz),
            millis: 0,
            pool,
            receiving,
            transmitting: None,
            message: message_new(),
            message_ready: false,
        };
        assert(r@.buffers_idle == POOL_BUFFERS - 1);
        assert(r@.receiving =~= Seq::<u8>::empty());
        r
    }

    /// The periodic tick interrupt: one more millisecond, wrapping at the
    /// width of the counter.
    pub fn tick(&mut self)
        requires
            old(self).wf(),
        ensures
            final(self).wf(),
            final(self)@ == (DeviceView { millis: next_millis(old(self)@.millis), ..old(self)@ }),
    {
        self.millis = self.millis.wrapping_add(1);
    }

    /// The millisecond clock.
    pub fn millis(&self) -> (r: u32)
        ensures
            r == self@.millis,
    {
        self.millis
    }

    /// Swaps the receive buffer for a fresh one and appends what it held
    /// to the message; does nothing when the pool is empty.
    fn swap_receive_buffer(&mut self) -> (swapped: bool)
        requires
            old(self).wf(),
        ensures
            final(self).wf(),
            swapped == (old(self)@.buffers_idle > 0),
            final(self)@ == after_swap(old(self)@),
    {
        match self.pool.acquire() {
            None => false,
            Some(fresh) => {
                let mut done = fresh;
                std::mem::swap(&mut self.receiving, &mut done);
                let _ = message_extend(&mut self.message, done.contents());
                proof {
                    assert(self.pool.lent().contains(done.slot()));
                }
                self.pool.release(done);
                proof {
                    assert(self.pool.idle().len() == old(self).pool.idle().len());
                    assert(self.receiving@ =~= Seq::<u8>::empty());
                    let t = self.transmitting;
                    match t {
                        Some(tb) => assert(self.pool.lent() =~= set![self.receiving.slot(), tb.slot()]),
                        None => assert(self.pool.lent() =~= set![self.receiving.slot()]),
                    }
                }
                true
            },
        }
    }

    /// The delimiter-match interrupt: the frame so far joins the message,
    /// which is then ready for the main loop. With the pool empty the
    /// event is acknowledged and nothing else happens.
    pub fn on_character_match(&mut self)
        requires
            old(self).wf(),
        ensures
            final(self).wf(),
            final(self)@ == after_match(old(self)@),
    {
        if self.swap_receive_buffer() {
            self.message_ready = true;
        }
    }

    /// The receive-complete interrupt, when the receive buffer is full:
    /// handled as the delimiter match is, so a fresh buffer keeps
    /// reception going, what was received joins the message, and the
    /// message is ready for the main loop.
    pub fn on_receive_complete(&mut self)
        requires
            old(self).wf(),
        ensures
            final(self).wf(),
            final(self)@ == after_match(old(self)@),
    {
        if self.swap_receive_buffer() {
            self.message_ready = true;
        }
    }

    /// One byte from the wire, as the receive DMA and the serial port's
    /// interrupts handle it.
    pub fn on_byte(&mut self, b: u8)
        requires
            old(self).wf(),
        ensures
            final(self).wf(),
            final(self)@ == after_byte(old(self)@, b),
    {
        let _ = self.receiving.push(b);
        if b == DELIMITER {
            self.on_character_match();
        } else if self.receiving.contents().len() == FRAME_CAPACITY {
            self.on_receive_complete();
        }
    }

    /// The transmit-complete interrupt: the sent buffer goes back to the
    /// pool and the transmitter is free.
    pub fn on_transmit_complete(&mut self)
        requires
            old(self).wf(),
        ensures
            final(self).wf(),
            final(self)@ == after_sent(old(self)@),
    {
        match self.transmitting.take() {
            None => {},
            Some(sent) => {
                self.pool.release(sent);
                proof {
                    assert(self.pool.lent() =~= set![self.receiving.slot()]);
                }
            },
        }
    }

    /// The reply on its way out, if one is.
    pub fn pending_reply(&self) -> (r: Option<Vec<u8>>)
        ensures
            match self@.transmitting {
                Some(t) => r matches Some(v) && v@ == t,
                None => r is None,
            },
    {
        match &self.transmitting {
            Some(t) => Some(vstd::slice::slice_to_vec(t.contents())),
            None => None,
        }
    }

    /// Buffers idle in the pool.
    pub fn idle_buffers(&self) -> (r: usize)
        ensures
            r == self@.buffers_idle,
    {
        self.pool.available()
    }

    /// What the main loop owns of the device.
    pub fn controller(&self) -> (r: Controller)
        ensures
            r == self@.controller,
    {
        self.controller
    }

    /// One pass of the main loop: when a message is ready, the transmitter
    /// free and a buffer idle, the message is parsed and carried out, its
    /// reply is handed to the transmitter, and the message is cleared.
    pub fn poll(&mut self)
        requires
            old(self).wf(),
        ensures
            final(self).wf(),
            final(self)@ == after_poll(old(self)@),
    {
        if !self.message_ready || self.transmitting.is_some() || self.pool.available() == 0 {
            return;
        }
        let cmd = parse_command(message_slice(&self.message));
        let now = self.millis;
        let reply = self.controller.execute(cmd, now);
        proof {
            lemma_reply_fits(old(self).controller, cmd, now);
        }
        match self.pool.acquire() {
            None => {},
            Some(mut buf) => {
                buf.write_slice(reply.as_slice());
                proof {
                    assert(self.pool.lent() =~= set![self.receiving.slot(), buf.slot()]);
                }
                self.transmitting = Some(buf);
            },
        }
        message_clear(&mut self.message);
        self.message_ready = false;
    }

    /// Every event keeps the buffers accounted: idle and held buffers add
    /// up to the same number before and after it.
    pub proof fn lemma_events_conserve_buffers(v: DeviceView, b: u8)
        ensures
            after_byte(v, b).buffers_idle + buffers_held(after_byte(v, b)) == v.buffers_idle + buffers_held(v),
            after_match(v).buffers_idle + buffers_held(after_match(v)) == v.buffers_idle + buffers_held(v),
            after_sent(v).buffers_idle + buffers_held(after_sent(v)) == v.buffers_idle + buffers_held(v),
            after_poll(v).buffers_idle + buffers_held(after_poll(v)) == v.buffers_idle + buffers_held(v),
            (DeviceView { millis: next_millis(v.millis), ..v }).buffers_idle == v.buffers_idle,
    {
    }

    /// Every buffer of the pool is either idle or owned by exactly one
    /// holder: idle buffers and held buffers add up to the pool.
    pub proof fn lemma_buffers_accounted(&self)
        requires
            self.wf(),
        ensures
            self@.buffers_idle + buffers_held(self@) == POOL_BUFFERS,
    {
        self.pool.lemma_buffers_conserved();
        match self.transmitting {
            Some(t) => {
                assert(set![self.receiving.slot(), t.slot()].len() == 2) by {
                    assert(set![self.receiving.slot(), t.slot()] == set![self.receiving.slot()].insert(t.slot()));
                }
            },
            None => {},
        }
    }
}

} // verus!
