//! Length counters: each channel is wrapped with a counter that, when
//! enabled, mutes the channel on the frame-sequencer tick where it runs out.

use vstd::prelude::*;

verus! {

/// A sound generator as the mixer sees it: a 4-bit sample and a mute line.
/// `spec_output` and `spec_muted` pin what the two methods return, so the
/// wrapper's contracts stay exact for every generator.
pub trait ApuChannel: Sized {
    /// The generator's own well-formedness (field ranges).
    spec fn spec_wf(&self) -> bool;

    spec fn spec_output(&self) -> u8;

    spec fn spec_muted(&self) -> bool;

    fn output(&mut self) -> (r: u8)
        requires
            old(self).spec_wf(),
        ensures
            *final(self) == *old(self),
            r == old(self).spec_output(),
    ;

    fn muted(&self) -> (r: bool)
        ensures
            r == self.spec_muted(),
    ;
}

/// A channel together with its length counter.
pub struct LengthCountedChannel<C: ApuChannel> {
    /// Full length of the counter: 64 for pulse and noise, 256 for wave.
    pub max_length: u16,
    /// Length loaded by the NRx1 write: max_length minus the written value.
    pub length: u16,
    /// Ticks left before the channel is muted, when counting is enabled.
    pub current_counter: u16,
    /// NRx4 bit 6: whether the counter counts down at all.
    pub counter_decrease_enable: bool,
    /// Set by the counter running out; cleared by a trigger.
    pub muted: bool,
    pub channel: C,
}

/// One frame-sequencer length tick: when counting is enabled, a counter that
/// is already 0 mutes at once; otherwise it steps down and mutes (and stops
/// counting) on the tick it reaches 0.
pub open spec fn spec_length_clocked<C: ApuChannel>(
    c: LengthCountedChannel<C>,
) -> LengthCountedChannel<C> {
    if !c.counter_decrease_enable {
        c
    } else if c.current_counter == 0 {
        LengthCountedChannel { muted: true, ..c }
    } else if c.current_counter == 1 {
        LengthCountedChannel { current_counter: 0, muted: true, counter_decrease_enable: false, ..c }
    } else {
        LengthCountedChannel { current_counter: (c.current_counter - 1) as u16, ..c }
    }
}

impl<C: ApuChannel> LengthCountedChannel<C> {
    pub fn new(channel: C, max_length: u16) -> (r: LengthCountedChannel<C>)
        ensures
            r == (LengthCountedChannel {
                max_length,
                length: 0,
                current_counter: 0,
                counter_decrease_enable: false,
                muted: false,
                channel,
            }),
    {
        LengthCountedChannel {
            max_length,
            length: 0,
            current_counter: 0,
            counter_decrease_enable: false,
            muted: false,
            channel,
        }
    }

    pub fn channel(&self) -> (r: &C)
        ensures
            r == &self.channel,
    {
        &self.channel
    }

    pub fn channel_mut(&mut self) -> (r: &mut C)
        ensures
            *r == old(self).channel,
            *final(self) == (LengthCountedChannel { channel: *final(r), ..*old(self) }),
    {
        &mut self.channel
    }

    /// NRx1 write: the counter is loaded with max_length minus the data.
    pub fn write_sound_length(&mut self, data: u16)
        requires
            data <= old(self).max_length,
        ensures
            *final(self) == (LengthCountedChannel {
                length: (old(self).max_length - data) as u16,
                current_counter: (old(self).max_length - data) as u16,
                ..*old(self)
            }),
    {
        self.length = self.max_length - data;
        self.current_counter = self.length;
    }

    /// NRx4 bit 6 write: enables or disables counting and reloads the counter.
    pub fn write_length_enable(&mut self, data: bool)
        ensures
            *final(self) == (LengthCountedChannel {
                counter_decrease_enable: data,
                current_counter: old(self).length,
                ..*old(self)
            }),
    {
        self.counter_decrease_enable = data;
        self.current_counter = self.length;
    }

    pub fn read_length_enable(&self) -> (r: bool)
        ensures
            r == self.counter_decrease_enable,
    {
        self.counter_decrease_enable
    }

    /// A trigger unmutes the channel and reloads the counter; a run-out
    /// counter is reloaded with the full length.
    pub fn restart_channel(&mut self)
        ensures
            *final(self) == (LengthCountedChannel {
                muted: false,
                current_counter: if old(self).length == 0 {
                    old(self).max_length
                } else {
                    old(self).length
                },
                ..*old(self)
            }),
    {
        self.muted = false;
        self.current_counter = if self.length == 0 {
            self.max_length
        } else {
            self.length
        };
    }

    /// One frame-sequencer length tick.
    pub fn clock_length_counter(&mut self)
        ensures
            *final(self) == spec_length_clocked(*old(self)),
    {
        if self.counter_decrease_enable {
            if self.current_counter == 0 {
                self.muted = true;
            } else {
                self.current_counter = self.current_counter - 1;
                if self.current_counter == 0 {
                    self.muted = true;
                    self.counter_decrease_enable = false;
                }
            }
        }
    }
}

impl<C: ApuChannel> ApuChannel for LengthCountedChannel<C> {
    open spec fn spec_wf(&self) -> bool {
        self.channel.spec_wf()
    }

    open spec fn spec_output(&self) -> u8 {
        if self.muted {
            0
        } else {
            self.channel.spec_output()
        }
    }

    open spec fn spec_muted(&self) -> bool {
        self.muted || self.channel.spec_muted()
    }

    fn output(&mut self) -> (r: u8) {
        if self.muted {
            0
        } else {
            self.channel.output()
        }
    }

    fn muted(&self) -> (r: bool) {
        self.muted || self.channel.muted()
    }
}

} // verus!
