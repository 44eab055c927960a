//! What a tick does to each serial link.
//!
//! The links themselves are opened and written to by the caller. This module
//! decides: the caller reports what happened as a [`LinkEvent`] and is told
//! what to do next as a [`LinkAction`].

use vstd::prelude::*;
use crate::komsi::{build_komsi_command, komsi_command, KomsiCommandKind, EOL};

verus! {

/// A serial line to an instrument cluster.
pub struct SerialLink {
    pub name: String,
    pub baud: u32,
    /// Whether frames are to be sent on this link.
    pub enabled: bool,
    /// Whether the caller holds an open port for this link.
    pub open: bool,
}

/// What happened to a link.
#[derive(Clone, Copy, Debug, PartialEq, Eq, Structural)]
pub enum LinkEvent {
    /// A tick began. `sending` says whether it has a frame to send.
    Tick { sending: bool },
    /// The port was opened and the preamble was sent.
    Opened,
    /// The port could not be opened.
    OpenFailed,
    /// The frame was written.
    Written,
    /// Writing the frame failed.
    WriteFailed,
}

/// What the caller is to do with a link.
#[derive(Clone, Copy, Debug, PartialEq, Eq, Structural)]
pub enum LinkAction {
    /// Nothing until the next tick.
    Nothing,
    /// Open the port and, if that succeeds, send the preamble.
    Open,
    /// Write the frame of this tick.
    Write,
}

/// Whether a link is open after `event`. Only a failed write closes a
/// link, and only a successful opening opens one.
pub open spec fn open_after(open: bool, event: LinkEvent) -> bool {
    match event {
        LinkEvent::Opened => true,
        LinkEvent::WriteFailed => false,
        _ => open,
    }
}

/// What is to be done with a link after `event`. A tick with a frame makes
/// an enabled link write if it is open and open if it is not; a link that
/// was just opened writes the frame of the tick at once.
pub open spec fn action_after(enabled: bool, open: bool, event: LinkEvent) -> LinkAction {
    match event {
        LinkEvent::Tick { sending } => if !enabled || !sending {
            LinkAction::Nothing
        } else if open {
            LinkAction::Write
        } else {
            LinkAction::Open
        },
        LinkEvent::Opened => if enabled {
            LinkAction::Write
        } else {
            LinkAction::Nothing
        },
        _ => LinkAction::Nothing,
    }
}

impl SerialLink {
    /// A link that is enabled and not yet open.
    pub fn new(name: String, baud: u32) -> (link: SerialLink)
        ensures
            link.name == name,
            link.baud == baud,
            link.enabled,
            !link.open,
    {
        SerialLink { name, baud, enabled: true, open: false }
    }

    /// Takes note of `event` and says what to do next.
    pub fn step(&mut self, event: LinkEvent) -> (action: LinkAction)
        ensures
            action == action_after(old(self).enabled, old(self).open, event),
            final(self).open == open_after(old(self).open, event),
            final(self).enabled == old(self).enabled,
            final(self).name == old(self).name,
            final(self).baud == old(self).baud,
    {
        match event {
            LinkEvent::Tick { sending } => {
                if !self.enabled || !sending {
                    LinkAction::Nothing
                } else if self.open {
                    LinkAction::Write
                } else {
                    LinkAction::Open
                }
            },
            LinkEvent::Opened => {
                self.open = true;
                if self.enabled {
                    LinkAction::Write
                } else {
                    LinkAction::Nothing
                }
            },
            LinkEvent::WriteFailed => {
                self.open = false;
                LinkAction::Nothing
            },
            LinkEvent::OpenFailed => LinkAction::Nothing,
            LinkEvent::Written => LinkAction::Nothing,
        }
    }
}

/// The frame that tells a cluster which simulator it is connected to. It is
/// sent once after a link was opened, before any other frame.
pub open spec fn preamble_frame() -> Seq<u8> {
    komsi_command(KomsiCommandKind::SimulatorType, 0).push(EOL)
}

/// The frame that is sent once after a link was opened: `O0` and the end of
/// line.
pub fn preamble() -> (frame: Vec<u8>)
    ensures
        frame@ == preamble_frame(),
        frame@ == seq![79u8, 48u8, 10u8],
{
    let mut frame = build_komsi_command(KomsiCommandKind::SimulatorType, 0);
    frame.push(EOL);
    frame
}

/// The serial links, in the order in which they were configured.
pub struct FanOut {
    links: Vec<SerialLink>,
    serial_enabled: bool,
}

impl View for FanOut {
    type V = Seq<SerialLink>;

    /// The links in their order.
    closed spec fn view(&self) -> Seq<SerialLink> {
        self.links@
    }
}

impl FanOut {
    /// Whether anything is sent at all.
    pub closed spec fn serial_enabled_spec(&self) -> bool {
        self.serial_enabled
    }

    /// No links yet. With `serial_enabled` false no link is ever opened or
    /// written to.
    pub fn new(serial_enabled: bool) -> (fan: FanOut)
        ensures
            fan@.len() == 0,
            fan.serial_enabled_spec() == serial_enabled,
    {
        FanOut { links: Vec::new(), serial_enabled }
    }

    /// Adds a link behind the others: enabled, not yet open.
    pub fn add_link(&mut self, name: String, baud: u32)
        ensures
            final(self)@.len() == old(self)@.len() + 1,
            final(self)@.last().name == name,
            final(self)@.last().baud == baud,
            final(self)@.last().enabled,
            !final(self)@.last().open,
            final(self)@.drop_last() == old(self)@,
            final(self).serial_enabled_spec() == old(self).serial_enabled_spec(),
    {
        self.links.push(SerialLink::new(name, baud));
    }

    /// Whether anything is sent at all.
    #[verifier::when_used_as_spec(serial_enabled_spec)]
    pub fn serial_enabled(&self) -> (enabled: bool)
        ensures
            enabled == self.serial_enabled_spec(),
    {
        self.serial_enabled
    }

    /// How many links there are.
    pub fn len(&self) -> (n: usize)
        ensures
            n == self@.len(),
    {
        self.links.len()
    }

    /// Link `i`, if there is one.
    pub fn link(&self, i: usize) -> (link: Option<&SerialLink>)
        ensures
            i < self@.len() ==> link == Some(&self@[i as int]),
            i >= self@.len() ==> link is None,
    {
        if i < self.links.len() {
            Some(&self.links[i])
        } else {
            None
        }
    }

    /// Enables or disables link `i`. The link stays open or closed as it is.
    /// Without a link `i` nothing changes.
    pub fn set_enabled(&mut self, i: usize, enabled: bool)
        ensures
            final(self)@.len() == old(self)@.len(),
            i < old(self)@.len() ==> {
                &&& final(self)@[i as int].enabled == enabled
                &&& final(self)@[i as int].open == old(self)@[i as int].open
                &&& final(self)@[i as int].name == old(self)@[i as int].name
                &&& final(self)@[i as int].baud == old(self)@[i as int].baud
            },
            forall|j: int| 0 <= j < old(self)@.len() && j != i ==> final(self)@[j] == old(self)@[j],
            final(self).serial_enabled_spec() == old(self).serial_enabled_spec(),
    {
        if i < self.links.len() {
            self.links[i].enabled = enabled;
        }
    }

    /// The event with which a tick begins for every link: there is
    /// something to send if sending is enabled and the frame is not empty.
    pub fn tick_event(&self, frame: &Vec<u8>) -> (event: LinkEvent)
        ensures
            event == (LinkEvent::Tick { sending: self.serial_enabled_spec() && frame@.len() > 0 }),
    {
        LinkEvent::Tick { sending: self.serial_enabled && frame.len() > 0 }
    }

    /// Takes note of what happened to link `i` and says what to do with it
    /// next. No other link is touched. Without a link `i` nothing changes and
    /// nothing is to be done.
    pub fn step(&mut self, i: usize, event: LinkEvent) -> (action: LinkAction)
        ensures
            final(self)@.len() == old(self)@.len(),
            i < old(self)@.len() ==> {
                &&& action == action_after(
                    old(self)@[i as int].enabled,
                    old(self)@[i as int].open,
                    event,
                )
                &&& final(self)@[i as int].open == open_after(old(self)@[i as int].open, event)
                &&& final(self)@[i as int].enabled == old(self)@[i as int].enabled
                &&& final(self)@[i as int].name == old(self)@[i as int].name
                &&& final(self)@[i as int].baud == old(self)@[i as int].baud
            },
            i >= old(self)@.len() ==> action == LinkAction::Nothing,
            forall|j: int| 0 <= j < old(self)@.len() && j != i ==> final(self)@[j] == old(self)@[j],
            final(self).serial_enabled_spec() == old(self).serial_enabled_spec(),
    {
        if i < self.links.len() {
            self.links[i].step(event)
        } else {
            LinkAction::Nothing
        }
    }

    /// Marks every link as closed, as when the bridge shuts down.
    pub fn close_all(&mut self)
        ensures
            final(self)@.len() == old(self)@.len(),
            forall|j: int|
                0 <= j < old(self)@.len() ==> {
                    &&& !(#[trigger] final(self)@[j]).open
                    &&& final(self)@[j].enabled == old(self)@[j].enabled
                    &&& final(self)@[j].name == old(self)@[j].name
                    &&& final(self)@[j].baud == old(self)@[j].baud
                },
            final(self).serial_enabled_spec() == old(self).serial_enabled_spec(),
    {
        let mut i: usize = 0;
        while i < self.links.len()
            invariant
                i <= self.links@.len(),
                self.links@.len() == old(self).links@.len(),
                self.serial_enabled == old(self).serial_enabled,
                forall|j: int|
                    0 <= j < i ==> {
                        &&& !(#[trigger] self.links@[j]).open
                        &&& self.links@[j].enabled == old(self).links@[j].enabled
                        &&& self.links@[j].name == old(self).links@[j].name
                        &&& self.links@[j].baud == old(self).links@[j].baud
                    },
                forall|j: int| i <= j < self.links@.len() ==> self.links@[j] == old(self).links@[j],
            decreases self.links@.len() - i,
        {
            self.links[i].open = false;
            i += 1;
        }
    }
}

/// Whether a link is open after a run of events.
pub open spec fn open_after_all(open: bool, events: Seq<LinkEvent>) -> bool
    decreases events.len(),
{
    if events.len() == 0 {
        open
    } else {
        open_after(open_after_all(open, events.drop_last()), events.last())
    }
}

/// A link whose port cannot be opened is tried again at every tick that has
/// a frame: as long as it sees nothing but ticks and failed openings it
/// stays closed, and the next such tick asks to open it again.
pub proof fn lemma_failed_link_is_retried(events: Seq<LinkEvent>)
    requires
        forall|k: int|
            0 <= k < events.len() ==> events[k] is Tick || events[k] == LinkEvent::OpenFailed,
    ensures
        !open_after_all(false, events),
        action_after(true, open_after_all(false, events), LinkEvent::Tick { sending: true })
            == LinkAction::Open,
    decreases events.len(),
{
    if events.len() > 0 {
        lemma_failed_link_is_retried(events.drop_last());
    }
}

/// A link that works gets the frame of every tick that has one: once it is
/// open, and as long as no write fails, it stays open, and each such tick
/// asks to write.
pub proof fn lemma_working_link_gets_every_frame(events: Seq<LinkEvent>)
    requires
        forall|k: int| 0 <= k < events.len() ==> events[k] != LinkEvent::WriteFailed,
    ensures
        open_after_all(true, events),
        action_after(true, open_after_all(true, events), LinkEvent::Tick { sending: true })
            == LinkAction::Write,
    decreases events.len(),
{
    if events.len() > 0 {
        lemma_working_link_gets_every_frame(events.drop_last());
    }
}

/// A closed link that is enabled opens at the first tick that has a frame
/// and, once open, writes the frame of that very tick.
pub proof fn lemma_opening_sends_at_once()
    ensures
        action_after(true, false, LinkEvent::Tick { sending: true }) == LinkAction::Open,
        open_after(false, LinkEvent::Opened),
        action_after(true, false, LinkEvent::Opened) == LinkAction::Write,
{
}

/// Nothing is done to a link that is disabled, nor at a tick without a
/// frame, nor while sending is switched off; and none of this opens or
/// closes the link.
pub proof fn lemma_idle_link(enabled: bool, open: bool, sending: bool)
    requires
        !enabled || !sending,
    ensures
        action_after(enabled, open, LinkEvent::Tick { sending }) == LinkAction::Nothing,
        open_after(open, LinkEvent::Tick { sending }) == open,
{
}

} // verus!
