//! The serial pointer device: its settings, the link's state machine, the
//! wire frames, and the order in which ports are probed.
//!
//! The serial handle and the clock belong to the caller. A command method
//! returns the next `LinkAction`; the caller performs it and reports the
//! outcome to `connect_finished` or `write_finished`. Time is a count of
//! milliseconds on any clock that does not run backwards.

use crate::filter::{floor_div, mean, slide, SmoothingFilter, UNITS_PER_COUNT};
use rand::rngs::{OsRng, StdRng};
use rand::{RngCore, SeedableRng};
use vstd::prelude::*;

verus! {

/// First byte of a relative-move frame: ASCII `M`.
pub const OPCODE_MOVE: u8 = 77;

/// The one byte of a click frame: ASCII `C`.
pub const OPCODE_CLICK: u8 = 67;

/// Read and write timeout of the serial handle, in milliseconds.
pub const PORT_TIMEOUT_MS: u64 = 100;

/// How long the device needs after the port opens before it listens, in
/// milliseconds.
pub const SETTLE_DELAY_MS: u64 = 2000;

/// Speed at which a port is probed during discovery.
pub const PROBE_BAUD_RATE: u32 = 115200;

/// Settings of the link.
#[derive(Clone, Copy, Debug)]
pub struct MouseConfig {
    pub baud_rate: u32,
    pub filter_length: usize,
    pub reconnect_attempts: u32,
    pub reconnect_delay_ms: u64,
    pub humanize_delay: bool,
    pub min_click_delay_ms: u64,
    pub max_click_delay_ms: u64,
}

impl MouseConfig {
    /// The click delay has a range to be drawn from: its lower end is not
    /// above its upper end.
    pub open spec fn valid(&self) -> bool {
        self.min_click_delay_ms <= self.max_click_delay_ms
    }

    /// Whether the settings can be used.
    pub fn is_valid(&self) -> (ok: bool)
        ensures
            ok == self.valid(),
    {
        self.min_click_delay_ms <= self.max_click_delay_ms
    }
}

impl Default for MouseConfig {
    fn default() -> (config: Self)
        ensures
            config == (MouseConfig {
                baud_rate: 115200,
                filter_length: 3,
                reconnect_attempts: 5,
                reconnect_delay_ms: 1000,
                humanize_delay: true,
                min_click_delay_ms: 10,
                max_click_delay_ms: 100,
            }),
    {
        MouseConfig {
            baud_rate: 115200,
            filter_length: 3,
            reconnect_attempts: 5,
            reconnect_delay_ms: 1000,
            humanize_delay: true,
            min_click_delay_ms: 10,
            max_click_delay_ms: 100,
        }
    }
}

/// Why a command could not be carried out.
#[derive(Clone, Copy, Debug, PartialEq, Eq, Structural)]
pub enum LinkError {
    /// No port is left to probe.
    NoDeviceFound,
    /// A reconnect was asked for before the cooldown was over.
    TooSoon,
    /// The port did not open, or a write to it failed.
    Io,
    /// The settings are not `valid`.
    InvalidConfig,
}

/// Where the link stands.
#[derive(Clone, Copy, Debug, PartialEq, Eq, Structural)]
pub enum LinkState {
    Disconnected,
    Connecting,
    Connected,
}

/// What the caller does next with the serial handle.
#[derive(Debug)]
pub enum LinkAction {
    /// Flush and drop the handle that is open, if any; then open the link's
    /// port at `baud_rate` with `timeout_ms`, and report to
    /// `connect_finished`.
    Open { baud_rate: u32, timeout_ms: u64 },
    /// Sleep `delay_ms`, write `frame`, and report to `write_finished`.
    Write { delay_ms: u64, frame: Vec<u8> },
}

/// The wire byte of one axis of a move. The delta, in thousandths of a
/// count, is rounded down to whole counts; a negative delta is sent as its
/// count plus 256; what then lies outside a byte is clamped to it.
pub open spec fn encode_axis(delta: int) -> int {
    let whole = delta / (UNITS_PER_COUNT as int);
    let shifted = if delta < 0 {
        whole + 256
    } else {
        whole
    };
    if shifted < 0 {
        0
    } else if shifted > 255 {
        255
    } else {
        shifted
    }
}

/// The three bytes of a relative move by the smoothed deltas `(x, y)`.
pub open spec fn move_frame(x: int, y: int) -> Seq<u8> {
    seq![OPCODE_MOVE, encode_axis(x) as u8, encode_axis(y) as u8]
}

/// The one byte of a click.
pub open spec fn click_frame() -> Seq<u8> {
    seq![OPCODE_CLICK]
}

/// Milliseconds between `since_ms` and `now_ms`; 0 if the clock went back.
pub open spec fn elapsed_ms(since_ms: u64, now_ms: u64) -> int {
    if now_ms >= since_ms {
        now_ms - since_ms
    } else {
        0
    }
}

/// The pause before a click. Without humanizing there is none. With it, a
/// drawn number `raw` picks the delay `min + raw mod (max - min + 1)`; where
/// no number could be drawn the delay is `min`.
pub open spec fn click_delay(config: MouseConfig, raw: Option<u32>) -> int {
    if !config.humanize_delay {
        0
    } else {
        match raw {
            Some(r) => config.min_click_delay_ms + (r as int) % (config.max_click_delay_ms
                - config.min_click_delay_ms + 1),
            None => config.min_click_delay_ms as int,
        }
    }
}

/// A humanized delay never leaves the configured range.
pub proof fn lemma_click_delay_in_range(config: MouseConfig, raw: Option<u32>)
    requires
        config.valid(),
    ensures
        config.humanize_delay ==> config.min_click_delay_ms <= click_delay(config, raw)
            <= config.max_click_delay_ms,
        !config.humanize_delay ==> click_delay(config, raw) == 0,
{
    if config.humanize_delay {
        if let Some(r) = raw {
            let span = config.max_click_delay_ms - config.min_click_delay_ms + 1;
            vstd::arithmetic::div_mod::lemma_mod_bound(r as int, span);
        }
    }
}

/// Encodes one axis of a move for the wire.
pub fn encode_delta(delta: i64) -> (byte: u8)
    ensures
        byte == encode_axis(delta as int),
{
    let whole: i128 = floor_div(delta as i128, UNITS_PER_COUNT as i128);
    let shifted: i128 = if delta < 0 {
        whole + 256
    } else {
        whole
    };
    if shifted < 0 {
        0
    } else if shifted > 255 {
        255
    } else {
        shifted as u8
    }
}

/// The pause before a click, from the settings and a drawn number.
pub fn click_delay_ms(config: &MouseConfig, raw: Option<u32>) -> (delay: u64)
    requires
        config.valid(),
    ensures
        delay == click_delay(*config, raw),
{
    if !config.humanize_delay {
        return 0;
    }
    match raw {
        None => config.min_click_delay_ms,
        Some(r) => {
            let span: u64 = config.max_click_delay_ms - config.min_click_delay_ms;
            if span == u64::MAX {
                proof {
                    vstd::arithmetic::div_mod::lemma_small_mod(
                        r as nat,
                        0x1_0000_0000_0000_0000nat,
                    );
                }
                r as u64
            } else {
                proof {
                    vstd::arithmetic::div_mod::lemma_mod_bound(r as int, span + 1);
                }
                config.min_click_delay_ms + (r as u64) % (span + 1)
            }
        },
    }
}

/// Draws one number from `rand`'s standard generator, freshly seeded from
/// the operating system through `StdRng::from_rng(OsRng)`, by its
/// `next_u32`. Nothing is claimed of the number. `None` stands for a seed
/// that the operating system could not give.
#[verifier::external_body]
fn entropy_u32() -> (raw: Option<u32>) {
    match StdRng::from_rng(OsRng) {
        Ok(mut rng) => Some(rng.next_u32()),
        Err(_) => None,
    }
}

/// The names behind a list of port names.
pub open spec fn names(ports: Seq<String>) -> Seq<Seq<char>> {
    Seq::new(ports.len(), |i: int| ports[i]@)
}

/// The ports that are tried first, in this order.
pub open spec fn preferred_names() -> Seq<Seq<char>> {
    seq!["COM9"@, "COM3"@, "COM4"@, "COM5"@, "COM6"@, "COM7"@, "COM8"@, "COM10"@]
}

/// The order in which ports are probed: the preferred names that were
/// found, in order of preference, and then every port that was found, in
/// the order of the listing. A preferred port so comes up twice.
pub open spec fn probe_order(found: Seq<Seq<char>>) -> Seq<Seq<char>> {
    preferred_names().filter(|name: Seq<char>| found.contains(name)) + found
}

/// The ports that are tried first.
pub fn preferred_ports() -> (ports: Vec<String>)
    ensures
        names(ports@) == preferred_names(),
{
    let mut ports: Vec<String> = Vec::new();
    ports.push("COM9".to_owned());
    ports.push("COM3".to_owned());
    ports.push("COM4".to_owned());
    ports.push("COM5".to_owned());
    ports.push("COM6".to_owned());
    ports.push("COM7".to_owned());
    ports.push("COM8".to_owned());
    ports.push("COM10".to_owned());
    assert(names(ports@) =~= preferred_names());
    ports
}

/// Whether `name` is among `ports`.
pub fn port_listed(ports: &Vec<String>, name: &String) -> (listed: bool)
    ensures
        listed == names(ports@).contains(name@),
{
    let mut i: usize = 0;
    while i < ports.len()
        invariant
            i <= ports@.len(),
            forall|j: int| 0 <= j < i ==> names(ports@)[j] != name@,
        decreases ports@.len() - i,
    {
        if ports[i] == *name {
            assert(names(ports@)[i as int] == name@);
            return true;
        }
        i = i + 1;
    }
    false
}

/// The ports to probe, in order, given the ports that the system lists.
pub fn ports_to_probe(ports: &Vec<String>) -> (order: Vec<String>)
    ensures
        names(order@) == probe_order(names(ports@)),
{
    let preferred = preferred_ports();
    let ghost found = names(ports@);
    let ghost listed = |name: Seq<char>| found.contains(name);
    let mut order: Vec<String> = Vec::new();
    let mut i: usize = 0;
    while i < preferred.len()
        invariant
            i <= preferred@.len(),
            found == names(ports@),
            listed == |name: Seq<char>| found.contains(name),
            names(order@) == names(preferred@).take(i as int).filter(listed),
        decreases preferred@.len() - i,
    {
        proof {
            reveal(Seq::filter);
            assert(names(preferred@).take(i + 1).drop_last() =~= names(preferred@).take(i as int));
        }
        let ghost before = names(order@);
        if port_listed(ports, &preferred[i]) {
            order.push(preferred[i].clone());
            assert(names(order@) =~= before.push(names(preferred@)[i as int]));
        }
        i = i + 1;
    }
    assert(names(preferred@).take(i as int) =~= names(preferred@));
    let ghost head = names(order@);
    let mut j: usize = 0;
    while j < ports.len()
        invariant
            j <= ports@.len(),
            names(order@) == head + names(ports@).take(j as int),
        decreases ports@.len() - j,
    {
        let ghost before = names(order@);
        order.push(ports[j].clone());
        assert(names(order@) =~= before.push(names(ports@)[j as int]));
        assert(names(order@) =~= head + names(ports@).take(j + 1));
        j = j + 1;
    }
    assert(names(ports@).take(j as int) =~= names(ports@));
    order
}

/// The port to probe after `failed` probes have failed, or `NoDeviceFound`
/// once every candidate has been tried. With no port listed there is no
/// candidate at all.
pub fn find_arduino_port(ports: &Vec<String>, failed: usize) -> (next: Result<String, LinkError>)
    ensures
        failed >= probe_order(names(ports@)).len() ==> next == Err::<String, LinkError>(
            LinkError::NoDeviceFound,
        ),
        failed < probe_order(names(ports@)).len() ==> (next matches Ok(name) && name@
            == probe_order(names(ports@))[failed as int]),
{
    let order = ports_to_probe(ports);
    if failed < order.len() {
        assert(names(order@)[failed as int] == order@[failed as int]@);
        Ok(order[failed].clone())
    } else {
        Err(LinkError::NoDeviceFound)
    }
}

/// What a link is, mathematically.
pub struct LinkView {
    pub config: MouseConfig,
    pub port_name: Seq<char>,
    pub xs: Seq<i64>,
    pub ys: Seq<i64>,
    pub last_reconnect_ms: u64,
    pub state: LinkState,
}

impl LinkView {
    /// A reconnect at `now_ms` would come too soon after the last one.
    pub open spec fn cooling_down(&self, now_ms: u64) -> bool {
        elapsed_ms(self.last_reconnect_ms, now_ms) < self.config.reconnect_delay_ms
    }

    /// The action that opens this link's port.
    pub open spec fn open_action(&self) -> LinkAction {
        LinkAction::Open { baud_rate: self.config.baud_rate, timeout_ms: PORT_TIMEOUT_MS }
    }

    /// The link once a reconnect has begun at `now_ms`.
    pub open spec fn reconnecting(&self, now_ms: u64) -> LinkView {
        LinkView { state: LinkState::Connecting, last_reconnect_ms: now_ms, ..*self }
    }

    /// The link once the port has opened at `now_ms`.
    pub open spec fn connected(&self, now_ms: u64) -> LinkView {
        LinkView { state: LinkState::Connected, last_reconnect_ms: now_ms, ..*self }
    }

    /// The link without a connection.
    pub open spec fn disconnected(&self) -> LinkView {
        LinkView { state: LinkState::Disconnected, ..*self }
    }

    /// The link after one more sample has gone through the filter.
    pub open spec fn pushed(&self, x: i64, y: i64) -> LinkView {
        LinkView {
            xs: slide(self.xs, x, self.config.filter_length as nat),
            ys: slide(self.ys, y, self.config.filter_length as nat),
            ..*self
        }
    }
}

/// The link to the pointer device: settings, port name, smoothing filter,
/// the time of the last reconnect and the connection state.
#[derive(Debug)]
pub struct ArduinoMouse {
    config: MouseConfig,
    port_name: String,
    filter: SmoothingFilter,
    last_reconnect_ms: u64,
    state: LinkState,
}

impl View for ArduinoMouse {
    type V = LinkView;

    closed spec fn view(&self) -> LinkView {
        LinkView {
            config: self.config,
            port_name: self.port_name@,
            xs: self.filter.xs(),
            ys: self.filter.ys(),
            last_reconnect_ms: self.last_reconnect_ms,
            state: self.state,
        }
    }
}

impl ArduinoMouse {
    /// The settings are valid and the filter has the length they ask for.
    /// Every link that `new` returns is well formed, and every method keeps
    /// it so.
    pub closed spec fn wf(&self) -> bool {
        &&& self.config.valid()
        &&& self.filter.limit() == self.config.filter_length
    }

    /// A link to `port_name` that is not yet connected, with an empty
    /// filter. `now_ms` starts the reconnect cooldown. Settings that are not
    /// `valid` are refused.
    pub fn new(config: MouseConfig, port_name: String, now_ms: u64) -> (made: Result<
        Self,
        LinkError,
    >)
        ensures
            made is Ok <==> config.valid(),
            made matches Ok(link) ==> link.wf() && link@ == (LinkView {
                config,
                port_name: port_name@,
                xs: Seq::empty(),
                ys: Seq::empty(),
                last_reconnect_ms: now_ms,
                state: LinkState::Disconnected,
            }),
            made matches Err(e) ==> e == LinkError::InvalidConfig,
    {
        if !config.is_valid() {
            return Err(LinkError::InvalidConfig);
        }
        Ok(
            ArduinoMouse {
                config,
                port_name,
                filter: SmoothingFilter::new(config.filter_length),
                last_reconnect_ms: now_ms,
                state: LinkState::Disconnected,
            },
        )
    }

    /// The settings.
    pub fn config(&self) -> (config: MouseConfig)
        ensures
            config == self@.config,
    {
        self.config
    }

    /// The name of the port.
    pub fn port_name(&self) -> (name: &String)
        ensures
            name@ == self@.port_name,
    {
        &self.port_name
    }

    /// Where the link stands.
    pub fn state(&self) -> (state: LinkState)
        ensures
            state == self@.state,
    {
        self.state
    }

    /// Whether the port is open, as far as the link knows.
    pub fn is_connected(&self) -> (connected: bool)
        ensures
            connected == (self@.state == LinkState::Connected),
    {
        self.state == LinkState::Connected
    }

    /// Begins a connection, whatever the state: the caller replaces any open
    /// handle by a new one.
    pub fn connect(&mut self) -> (action: LinkAction)
        requires
            old(self).wf(),
        ensures
            final(self).wf(),
            final(self)@ == (LinkView { state: LinkState::Connecting, ..old(self)@ }),
            action == old(self)@.open_action(),
    {
        self.state = LinkState::Connecting;
        LinkAction::Open { baud_rate: self.config.baud_rate, timeout_ms: PORT_TIMEOUT_MS }
    }

    /// Takes the outcome of an `Open`. An open port makes the link
    /// `Connected` and restarts the cooldown at `now_ms`; the caller then
    /// lets the device settle for the returned milliseconds. A failure
    /// leaves the link `Disconnected` and is an `Io` error.
    pub fn connect_finished(&mut self, opened: bool, now_ms: u64) -> (settle: Result<
        u64,
        LinkError,
    >)
        requires
            old(self).wf(),
        ensures
            final(self).wf(),
            opened ==> settle == Ok::<u64, LinkError>(SETTLE_DELAY_MS) && final(self)@ == old(
                self,
            )@.connected(now_ms),
            !opened ==> settle == Err::<u64, LinkError>(LinkError::Io) && final(self)@ == old(
                self,
            )@.disconnected(),
    {
        if opened {
            self.state = LinkState::Connected;
            self.last_reconnect_ms = now_ms;
            Ok(SETTLE_DELAY_MS)
        } else {
            self.state = LinkState::Disconnected;
            Err(LinkError::Io)
        }
    }

    /// Begins a reconnect unless the last one began, or the port last
    /// opened, less than `reconnect_delay_ms` before `now_ms`. A refusal
    /// changes nothing; otherwise the cooldown restarts at `now_ms`.
    pub fn reconnect(&mut self, now_ms: u64) -> (action: Result<LinkAction, LinkError>)
        requires
            old(self).wf(),
        ensures
            final(self).wf(),
            old(self)@.cooling_down(now_ms) ==> action == Err::<LinkAction, LinkError>(
                LinkError::TooSoon,
            ) && final(self)@ == old(self)@,
            !old(self)@.cooling_down(now_ms) ==> action == Ok::<LinkAction, LinkError>(
                old(self)@.open_action(),
            ) && final(self)@ == old(self)@.reconnecting(now_ms),
    {
        let elapsed: u64 = if now_ms >= self.last_reconnect_ms {
            now_ms - self.last_reconnect_ms
        } else {
            0
        };
        if elapsed < self.config.reconnect_delay_ms {
            return Err(LinkError::TooSoon);
        }
        self.last_reconnect_ms = now_ms;
        Ok(self.connect())
    }

    /// A relative move by `(x, y)` thousandths of a count. On a connected
    /// link the sample goes through the smoothing filter and the means are
    /// framed for the wire. On any other link a reconnect is tried first,
    /// as `reconnect` does, and the sample is not taken: the caller opens
    /// the port and asks again.
    pub fn move_mouse(&mut self, x: i64, y: i64, now_ms: u64) -> (action: Result<
        LinkAction,
        LinkError,
    >)
        requires
            old(self).wf(),
        ensures
            final(self).wf(),
            old(self)@.state == LinkState::Connected ==> final(self)@ == old(self)@.pushed(x, y)
                && (action matches Ok(LinkAction::Write { delay_ms, frame }) && delay_ms == 0
                && frame@ == move_frame(mean(final(self)@.xs), mean(final(self)@.ys))),
            old(self)@.state != LinkState::Connected && old(self)@.cooling_down(now_ms) ==> action
                == Err::<LinkAction, LinkError>(LinkError::TooSoon) && final(self)@ == old(self)@,
            old(self)@.state != LinkState::Connected && !old(self)@.cooling_down(now_ms) ==> action
                == Ok::<LinkAction, LinkError>(old(self)@.open_action()) && final(self)@ == old(
                self,
            )@.reconnecting(now_ms),
    {
        if !self.is_connected() {
            return self.reconnect(now_ms);
        }
        let smoothed = self.filter.push(x, y);
        let mut frame: Vec<u8> = Vec::new();
        frame.push(OPCODE_MOVE);
        frame.push(encode_delta(smoothed.0));
        frame.push(encode_delta(smoothed.1));
        assert(frame@ =~= move_frame(smoothed.0 as int, smoothed.1 as int));
        Ok(LinkAction::Write { delay_ms: 0, frame })
    }

    /// A flick is a move: same filter, same frame.
    pub fn flick(&mut self, x: i64, y: i64, now_ms: u64) -> (action: Result<LinkAction, LinkError>)
        requires
            old(self).wf(),
        ensures
            final(self).wf(),
            old(self)@.state == LinkState::Connected ==> final(self)@ == old(self)@.pushed(x, y)
                && (action matches Ok(LinkAction::Write { delay_ms, frame }) && delay_ms == 0
                && frame@ == move_frame(mean(final(self)@.xs), mean(final(self)@.ys))),
            old(self)@.state != LinkState::Connected && old(self)@.cooling_down(now_ms) ==> action
                == Err::<LinkAction, LinkError>(LinkError::TooSoon) && final(self)@ == old(self)@,
            old(self)@.state != LinkState::Connected && !old(self)@.cooling_down(now_ms) ==> action
                == Ok::<LinkAction, LinkError>(old(self)@.open_action()) && final(self)@ == old(
                self,
            )@.reconnecting(now_ms),
    {
        self.move_mouse(x, y, now_ms)
    }

    /// A click whose pause is picked by `raw`, a number drawn by the caller
    /// (`None` where none could be drawn). On a link that is not connected
    /// a reconnect is tried first, as in `move_mouse`.
    pub fn click_with(&mut self, raw: Option<u32>, now_ms: u64) -> (action: Result<
        LinkAction,
        LinkError,
    >)
        requires
            old(self).wf(),
        ensures
            final(self).wf(),
            old(self)@.state == LinkState::Connected ==> final(self)@ == old(self)@ && (
            action matches Ok(LinkAction::Write { delay_ms, frame }) && delay_ms == click_delay(
                old(self)@.config,
                raw,
            ) && frame@ == click_frame()),
            old(self)@.state != LinkState::Connected && old(self)@.cooling_down(now_ms) ==> action
                == Err::<LinkAction, LinkError>(LinkError::TooSoon) && final(self)@ == old(self)@,
            old(self)@.state != LinkState::Connected && !old(self)@.cooling_down(now_ms) ==> action
                == Ok::<LinkAction, LinkError>(old(self)@.open_action()) && final(self)@ == old(
                self,
            )@.reconnecting(now_ms),
    {
        if !self.is_connected() {
            return self.reconnect(now_ms);
        }
        let delay_ms: u64 = click_delay_ms(&self.config, raw);
        let mut frame: Vec<u8> = Vec::new();
        frame.push(OPCODE_CLICK);
        assert(frame@ =~= click_frame());
        Ok(LinkAction::Write { delay_ms, frame })
    }

    /// A click. With humanizing on, a random pause inside the configured
    /// range comes before the write: the pause that `click_delay` gives for
    /// some drawn number. With humanizing off there is no pause. On a link
    /// that is not connected a reconnect is tried first, as in `move_mouse`.
    pub fn click(&mut self, now_ms: u64) -> (action: Result<LinkAction, LinkError>)
        requires
            old(self).wf(),
        ensures
            final(self).wf(),
            old(self)@.state == LinkState::Connected ==> final(self)@ == old(self)@ && (
            action matches Ok(LinkAction::Write { delay_ms, frame }) && frame@ == click_frame() && (
            exists|raw: Option<u32>| delay_ms == #[trigger] click_delay(old(self)@.config, raw))
                && (old(self)@.config.humanize_delay ==> old(self)@.config.min_click_delay_ms
                <= delay_ms <= old(self)@.config.max_click_delay_ms) && (
            !old(self)@.config.humanize_delay ==> delay_ms == 0)),
            old(self)@.state != LinkState::Connected && old(self)@.cooling_down(now_ms) ==> action
                == Err::<LinkAction, LinkError>(LinkError::TooSoon) && final(self)@ == old(self)@,
            old(self)@.state != LinkState::Connected && !old(self)@.cooling_down(now_ms) ==> action
                == Ok::<LinkAction, LinkError>(old(self)@.open_action()) && final(self)@ == old(
                self,
            )@.reconnecting(now_ms),
    {
        let raw: Option<u32> = if self.is_connected() && self.config.humanize_delay {
            entropy_u32()
        } else {
            None
        };
        proof {
            lemma_click_delay_in_range(self.config, raw);
        }
        self.click_with(raw, now_ms)
    }

    /// Takes the outcome of a `Write`. A failed write disconnects the link
    /// and is an `Io` error; the next command tries to reconnect.
    pub fn write_finished(&mut self, written: bool) -> (outcome: Result<(), LinkError>)
        requires
            old(self).wf(),
        ensures
            final(self).wf(),
            written ==> outcome == Ok::<(), LinkError>(()) && final(self)@ == old(self)@,
            !written ==> outcome == Err::<(), LinkError>(LinkError::Io) && final(self)@ == old(
                self,
            )@.disconnected(),
    {
        if written {
            Ok(())
        } else {
            self.state = LinkState::Disconnected;
            Err(LinkError::Io)
        }
    }

    /// Marks the link disconnected; the caller flushes and drops the
    /// handle. Closing a closed link changes nothing.
    pub fn close(&mut self)
        requires
            old(self).wf(),
        ensures
            final(self).wf(),
            final(self)@ == old(self)@.disconnected(),
    {
        self.state = LinkState::Disconnected;
    }
}

/// Two reconnects within `reconnect_delay_ms` of each other: where the first
/// was not refused, the second is, whether the port then failed to open or
/// opened at some `opened_ms` not before the first.
pub proof fn lemma_second_reconnect_too_soon(
    link: LinkView,
    first_ms: u64,
    opened_ms: u64,
    second_ms: u64,
)
    requires
        !link.cooling_down(first_ms),
        second_ms - first_ms < link.config.reconnect_delay_ms,
        first_ms - second_ms < link.config.reconnect_delay_ms,
        first_ms <= opened_ms,
    ensures
        link.reconnecting(first_ms).cooling_down(second_ms),
        link.reconnecting(first_ms).disconnected().cooling_down(second_ms),
        link.reconnecting(first_ms).connected(opened_ms).cooling_down(second_ms),
{
}

/// Closing twice is closing once.
pub proof fn lemma_close_idempotent(link: LinkView)
    ensures
        link.disconnected().disconnected() == link.disconnected(),
{
}

} // verus!
