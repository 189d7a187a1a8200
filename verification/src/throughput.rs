//! Traffic counters of a bridge, and the line that reports them.

use crate::text::{decimal, push_decimal};
use vstd::prelude::*;

verus! {

/// Seconds between two reports.
pub const THROUGHPUT_LOG_FREQUENCY_SECONDS: u64 = 2;

/// The end of the bridge that counts.
#[derive(Debug, Clone, Copy, PartialEq, Eq, Structural)]
pub enum Side {
    GroundControl,
    FlightController,
}

/// What has been counted since the last report.
#[derive(Debug, Clone, Copy, PartialEq, Eq, Structural)]
pub struct Window {
    pub link_recv_bytes: u32,
    pub link_send_bytes: u32,
    pub packets_in: u32,
    pub packets_out: u32,
}

/// Rates per second over a window.
#[derive(Debug, Clone, Copy, PartialEq, Eq, Structural)]
pub struct Rates {
    pub in_bps: u32,
    pub out_bps: u32,
    pub in_pps: u32,
    pub out_pps: u32,
}

/// Traffic counters, in total since startup and since the last report.
pub struct Throughput {
    side: Side,
    link_send_total_bytes: u64,
    link_send_bytes: u32,
    link_recv_total_bytes: u64,
    link_recv_bytes: u32,
    packets_in: u32,
    packets_out: u32,
    packets_in_total: u64,
    packets_out_total: u64,
    total_ground_station_bytes: u64,
    total_serial_port_bytes: u64,
    last_ts: u64,
}

/// The counters as numbers.
pub struct Counts {
    pub side: Side,
    pub link_send_total_bytes: nat,
    pub link_send_bytes: nat,
    pub link_recv_total_bytes: nat,
    pub link_recv_bytes: nat,
    pub packets_in: nat,
    pub packets_out: nat,
    pub packets_in_total: nat,
    pub packets_out_total: nat,
    pub total_ground_station_bytes: nat,
    pub total_serial_port_bytes: nat,
    /// When the last report was made, in nanoseconds on the caller's clock.
    pub last_ts: nat,
}

impl Counts {
    /// Nothing counted yet.
    pub open spec fn zero(side: Side, now: nat) -> Counts {
        Counts {
            side,
            link_send_total_bytes: 0,
            link_send_bytes: 0,
            link_recv_total_bytes: 0,
            link_recv_bytes: 0,
            packets_in: 0,
            packets_out: 0,
            packets_in_total: 0,
            packets_out_total: 0,
            total_ground_station_bytes: 0,
            total_serial_port_bytes: 0,
            last_ts: now,
        }
    }

    /// One packet of `n` bytes came in over the link.
    pub open spec fn received(self, n: nat) -> Counts {
        Counts {
            link_recv_bytes: self.link_recv_bytes + n,
            link_recv_total_bytes: self.link_recv_total_bytes + n,
            packets_in: self.packets_in + 1,
            packets_in_total: self.packets_in_total + 1,
            ..self
        }
    }

    /// One packet of `n` bytes went out over the link.
    pub open spec fn sent(self, n: nat) -> Counts {
        Counts {
            link_send_bytes: self.link_send_bytes + n,
            link_send_total_bytes: self.link_send_total_bytes + n,
            packets_out: self.packets_out + 1,
            packets_out_total: self.packets_out_total + 1,
            ..self
        }
    }

    /// So many bytes came from the ground station.
    pub open spec fn from_ground_station(self, n: nat) -> Counts {
        Counts { total_ground_station_bytes: self.total_ground_station_bytes + n, ..self }
    }

    /// So many bytes came from the serial port.
    pub open spec fn from_serial_port(self, n: nat) -> Counts {
        Counts { total_serial_port_bytes: self.total_serial_port_bytes + n, ..self }
    }

    /// A report was made: a new window starts, the totals stay.
    pub open spec fn reported(self, now: nat) -> Counts {
        Counts {
            link_send_bytes: 0,
            link_recv_bytes: 0,
            packets_in: 0,
            packets_out: 0,
            last_ts: now,
            ..self
        }
    }

    /// No window counter is ahead of its total.
    pub open spec fn consistent(self) -> bool {
        &&& self.link_send_bytes <= self.link_send_total_bytes
        &&& self.link_recv_bytes <= self.link_recv_total_bytes
        &&& self.packets_in <= self.packets_in_total
        &&& self.packets_out <= self.packets_out_total
    }

    /// Whether the counters can take one more packet of `n` bytes coming in.
    pub open spec fn can_receive(self, n: nat) -> bool {
        &&& self.link_recv_bytes + n <= u32::MAX
        &&& self.link_recv_total_bytes + n <= u64::MAX
        &&& self.packets_in < u32::MAX
        &&& self.packets_in_total < u64::MAX
    }

    /// Whether the counters can take one more packet of `n` bytes going out.
    pub open spec fn can_send(self, n: nat) -> bool {
        &&& self.link_send_bytes + n <= u32::MAX
        &&& self.link_send_total_bytes + n <= u64::MAX
        &&& self.packets_out < u32::MAX
        &&& self.packets_out_total < u64::MAX
    }

    /// The end of the report, which differs between the two sides.
    pub open spec fn side_text(self) -> Seq<char> {
        match self.side {
            Side::GroundControl => ", total ground station bytes: "@ + decimal(
                self.total_ground_station_bytes,
            ),
            Side::FlightController => ", total serial port bytes: "@ + decimal(
                self.total_serial_port_bytes,
            ),
        }
    }

    /// The report on these counters, given the rates.
    pub open spec fn report(self, rates: Rates) -> Seq<char> {
        "link in B/s: "@ + decimal(rates.in_bps as nat) + ", link out B/s: "@ + decimal(
            rates.out_bps as nat,
        ) + ", packets in / s: "@ + decimal(rates.in_pps as nat) + ", packets out / s: "@ + decimal(
            rates.out_pps as nat,
        ) + ", total packets in: "@ + decimal(self.packets_in_total) + ", total packets out: "@
            + decimal(self.packets_out_total) + " total bytes in: "@ + decimal(
            self.link_recv_total_bytes,
        ) + ", total bytes out: "@ + decimal(self.link_send_total_bytes) + self.side_text()
    }
}

impl View for Throughput {
    type V = Counts;

    closed spec fn view(&self) -> Counts {
        Counts {
            side: self.side,
            link_send_total_bytes: self.link_send_total_bytes as nat,
            link_send_bytes: self.link_send_bytes as nat,
            link_recv_total_bytes: self.link_recv_total_bytes as nat,
            link_recv_bytes: self.link_recv_bytes as nat,
            packets_in: self.packets_in as nat,
            packets_out: self.packets_out as nat,
            packets_in_total: self.packets_in_total as nat,
            packets_out_total: self.packets_out_total as nat,
            total_ground_station_bytes: self.total_ground_station_bytes as nat,
            total_serial_port_bytes: self.total_serial_port_bytes as nat,
            last_ts: self.last_ts as nat,
        }
    }
}

impl Throughput {
    fn zero(side: Side, now: u64) -> (counters: Self)
        ensures
            counters@ == Counts::zero(side, now as nat),
    {
        Throughput {
            side,
            link_send_total_bytes: 0,
            link_send_bytes: 0,
            link_recv_total_bytes: 0,
            link_recv_bytes: 0,
            packets_in: 0,
            packets_out: 0,
            packets_in_total: 0,
            packets_out_total: 0,
            total_ground_station_bytes: 0,
            total_serial_port_bytes: 0,
            last_ts: now,
        }
    }

    /// Fresh counters of the ground control side.
    pub fn new_gc(now: u64) -> (counters: Self)
        ensures
            counters@ == Counts::zero(Side::GroundControl, now as nat),
    {
        Self::zero(Side::GroundControl, now)
    }

    /// Fresh counters of the flight controller side.
    pub fn new_fc(now: u64) -> (counters: Self)
        ensures
            counters@ == Counts::zero(Side::FlightController, now as nat),
    {
        Self::zero(Side::FlightController, now)
    }

    /// Whether [`Throughput::recv_packet`] can count `n` bytes.
    pub fn can_recv_packet(&self, n: u32) -> (fits: bool)
        ensures
            fits == self@.can_receive(n as nat),
    {
        self.link_recv_bytes <= u32::MAX - n && self.link_recv_total_bytes <= u64::MAX - n as u64
            && self.packets_in < u32::MAX && self.packets_in_total < u64::MAX
    }

    /// Whether [`Throughput::send_packet`] can count `n` bytes.
    pub fn can_send_packet(&self, n: u32) -> (fits: bool)
        ensures
            fits == self@.can_send(n as nat),
    {
        self.link_send_bytes <= u32::MAX - n && self.link_send_total_bytes <= u64::MAX - n as u64
            && self.packets_out < u32::MAX && self.packets_out_total < u64::MAX
    }

    /// Counts a packet that came in over the link.
    pub fn recv_packet(&mut self, n: u32)
        requires
            old(self)@.can_receive(n as nat),
        ensures
            final(self)@ == old(self)@.received(n as nat),
    {
        self.link_recv_bytes = self.link_recv_bytes + n;
        self.link_recv_total_bytes = self.link_recv_total_bytes + n as u64;
        self.packets_in = self.packets_in + 1;
        self.packets_in_total = self.packets_in_total + 1;
    }

    /// Counts a packet that went out over the link.
    pub fn send_packet(&mut self, n: u32)
        requires
            old(self)@.can_send(n as nat),
        ensures
            final(self)@ == old(self)@.sent(n as nat),
    {
        self.link_send_bytes = self.link_send_bytes + n;
        self.link_send_total_bytes = self.link_send_total_bytes + n as u64;
        self.packets_out = self.packets_out + 1;
        self.packets_out_total = self.packets_out_total + 1;
    }

    /// The bytes from the ground station so far.
    pub fn ground_station_total(&self) -> (bytes: u64)
        ensures
            bytes == self@.total_ground_station_bytes,
    {
        self.total_ground_station_bytes
    }

    /// The bytes from the serial port so far.
    pub fn serial_port_total(&self) -> (bytes: u64)
        ensures
            bytes == self@.total_serial_port_bytes,
    {
        self.total_serial_port_bytes
    }

    /// Counts bytes that came from the ground station.
    pub fn ground_station_bytes(&mut self, n: u64)
        requires
            old(self)@.total_ground_station_bytes + n <= u64::MAX,
        ensures
            final(self)@ == old(self)@.from_ground_station(n as nat),
    {
        self.total_ground_station_bytes = self.total_ground_station_bytes + n;
    }

    /// Counts bytes that came from the serial port.
    pub fn serial_port_bytes(&mut self, n: u64)
        requires
            old(self)@.total_serial_port_bytes + n <= u64::MAX,
        ensures
            final(self)@ == old(self)@.from_serial_port(n as nat),
    {
        self.total_serial_port_bytes = self.total_serial_port_bytes + n;
    }

    /// What has been counted since the last report.
    pub fn window(&self) -> (window: Window)
        ensures
            window.link_recv_bytes == self@.link_recv_bytes,
            window.link_send_bytes == self@.link_send_bytes,
            window.packets_in == self@.packets_in,
            window.packets_out == self@.packets_out,
    {
        Window {
            link_recv_bytes: self.link_recv_bytes,
            link_send_bytes: self.link_send_bytes,
            packets_in: self.packets_in,
            packets_out: self.packets_out,
        }
    }

    /// The length of the current window in nanoseconds, none where the clock
    /// went back.
    pub fn elapsed(&self, now: u64) -> (nanos: u64)
        ensures
            nanos == if now >= self@.last_ts {
                now - self@.last_ts
            } else {
                0
            },
    {
        now.saturating_sub(self.last_ts)
    }

    /// Makes the report and starts a new window. The rates are those of the
    /// window that ends.
    pub fn log(&mut self, now: u64, rates: Rates) -> (line: String)
        ensures
            line@ == old(self)@.report(rates),
            final(self)@ == old(self)@.reported(now as nat),
    {
        let mut line = String::new();
        line.append("link in B/s: ");
        push_decimal(&mut line, rates.in_bps as u64);
        line.append(", link out B/s: ");
        push_decimal(&mut line, rates.out_bps as u64);
        line.append(", packets in / s: ");
        push_decimal(&mut line, rates.in_pps as u64);
        line.append(", packets out / s: ");
        push_decimal(&mut line, rates.out_pps as u64);
        line.append(", total packets in: ");
        push_decimal(&mut line, self.packets_in_total);
        line.append(", total packets out: ");
        push_decimal(&mut line, self.packets_out_total);
        line.append(" total bytes in: ");
        push_decimal(&mut line, self.link_recv_total_bytes);
        line.append(", total bytes out: ");
        push_decimal(&mut line, self.link_send_total_bytes);
        let ghost common = line@;
        match self.side {
            Side::GroundControl => {
                line.append(", total ground station bytes: ");
                push_decimal(&mut line, self.total_ground_station_bytes);
            },
            Side::FlightController => {
                line.append(", total serial port bytes: ");
                push_decimal(&mut line, self.total_serial_port_bytes);
            },
        }
        assert(line@ =~= common + self@.side_text());
        assert(line@ =~= self@.report(rates));
        self.last_ts = now;
        self.link_recv_bytes = 0;
        self.link_send_bytes = 0;
        self.packets_in = 0;
        self.packets_out = 0;
        line
    }
}

/// What the loop that makes the reports is told.
#[derive(Debug, Clone, Copy, PartialEq, Eq, Structural)]
pub enum ReportEvent {
    Begin,
    /// The wait is over.
    Waited,
    /// The report has been made.
    Reported,
}

/// What the loop that makes the reports does next.
#[derive(Debug, Clone, Copy, PartialEq, Eq, Structural)]
pub enum ReportAction {
    Wait { seconds: u64 },
    Report,
    /// Nothing, for as long as the bridge runs.
    Rest,
}

/// What the loop that makes the reports does after an event.
pub open spec fn report_action(log_throughput: bool, event: ReportEvent) -> ReportAction {
    if !log_throughput {
        ReportAction::Rest
    } else if event == ReportEvent::Waited {
        ReportAction::Report
    } else {
        ReportAction::Wait { seconds: THROUGHPUT_LOG_FREQUENCY_SECONDS }
    }
}

/// Tells the loop that makes the reports what happened; it says what to do next.
/// A bridge that is not asked for reports never makes one.
pub fn report_step(log_throughput: bool, event: ReportEvent) -> (action: ReportAction)
    ensures
        action == if !log_throughput {
            ReportAction::Rest
        } else if event == ReportEvent::Waited {
            ReportAction::Report
        } else {
            ReportAction::Wait { seconds: THROUGHPUT_LOG_FREQUENCY_SECONDS }
        },
        action == report_action(log_throughput, event),
{
    if !log_throughput {
        return ReportAction::Rest;
    }
    match event {
        ReportEvent::Begin | ReportEvent::Reported => ReportAction::Wait {
            seconds: THROUGHPUT_LOG_FREQUENCY_SECONDS,
        },
        ReportEvent::Waited => ReportAction::Report,
    }
}

/// Fresh counters are consistent, and every operation keeps them so.
pub proof fn law_counts_stay_consistent(counts: Counts, side: Side, now: nat, n: nat)
    ensures
        Counts::zero(side, now).consistent(),
        counts.consistent() ==> counts.received(n).consistent(),
        counts.consistent() ==> counts.sent(n).consistent(),
        counts.consistent() ==> counts.from_ground_station(n).consistent(),
        counts.consistent() ==> counts.from_serial_port(n).consistent(),
        counts.consistent() ==> counts.reported(now).consistent(),
{
}

/// Something that changes the counters.
pub enum Call {
    /// A packet of this size came in over the link.
    Received(nat),
    /// A packet of this size went out over the link.
    Sent(nat),
    /// So many bytes came from the ground station.
    GroundStation(nat),
    /// So many bytes came from the serial port.
    SerialPort(nat),
    /// A report was made at this time.
    Reported(nat),
}

/// What is counted.
pub enum Quantity {
    BytesIn,
    BytesOut,
    PacketsIn,
    PacketsOut,
    GroundStationBytes,
    SerialPortBytes,
}

impl Call {
    /// By how much this makes a total grow.
    pub open spec fn adds(self, quantity: Quantity) -> nat {
        match (self, quantity) {
            (Call::Received(n), Quantity::BytesIn) => n,
            (Call::Received(_), Quantity::PacketsIn) => 1,
            (Call::Sent(n), Quantity::BytesOut) => n,
            (Call::Sent(_), Quantity::PacketsOut) => 1,
            (Call::GroundStation(n), Quantity::GroundStationBytes) => n,
            (Call::SerialPort(n), Quantity::SerialPortBytes) => n,
            _ => 0,
        }
    }
}

/// The counters after some calls.
pub open spec fn counts_after(counts: Counts, calls: Seq<Call>) -> Counts
    decreases calls.len(),
{
    if calls.len() == 0 {
        counts
    } else {
        let before = counts_after(counts, calls.drop_last());
        match calls.last() {
            Call::Received(n) => before.received(n),
            Call::Sent(n) => before.sent(n),
            Call::GroundStation(n) => before.from_ground_station(n),
            Call::SerialPort(n) => before.from_serial_port(n),
            Call::Reported(now) => before.reported(now),
        }
    }
}

/// By how much some calls make a total grow.
pub open spec fn total(calls: Seq<Call>, quantity: Quantity) -> nat
    decreases calls.len(),
{
    if calls.len() == 0 {
        0
    } else {
        total(calls.drop_last(), quantity) + calls.last().adds(quantity)
    }
}

/// The calls since the last report, or all of them where there was none.
pub open spec fn since_report(calls: Seq<Call>) -> Seq<Call>
    decreases calls.len(),
{
    if calls.len() == 0 || calls.last() is Reported {
        Seq::empty()
    } else {
        since_report(calls.drop_last()).push(calls.last())
    }
}

/// When the last report was made, or the start where there was none.
pub open spec fn last_report(start: nat, calls: Seq<Call>) -> nat
    decreases calls.len(),
{
    if calls.len() == 0 {
        start
    } else {
        match calls.last() {
            Call::Reported(now) => now,
            _ => last_report(start, calls.drop_last()),
        }
    }
}

/// After any calls on fresh counters, with any number of reports among them, each
/// total counts all of the calls, and each window counter those since the last
/// report.
pub proof fn law_counts_are_sums(side: Side, start: nat, calls: Seq<Call>)
    ensures
        counts_after(Counts::zero(side, start), calls) == (Counts {
            side,
            link_send_total_bytes: total(calls, Quantity::BytesOut),
            link_send_bytes: total(since_report(calls), Quantity::BytesOut),
            link_recv_total_bytes: total(calls, Quantity::BytesIn),
            link_recv_bytes: total(since_report(calls), Quantity::BytesIn),
            packets_in: total(since_report(calls), Quantity::PacketsIn),
            packets_out: total(since_report(calls), Quantity::PacketsOut),
            packets_in_total: total(calls, Quantity::PacketsIn),
            packets_out_total: total(calls, Quantity::PacketsOut),
            total_ground_station_bytes: total(calls, Quantity::GroundStationBytes),
            total_serial_port_bytes: total(calls, Quantity::SerialPortBytes),
            last_ts: last_report(start, calls),
        }),
    decreases calls.len(),
{
    if calls.len() > 0 {
        let front = calls.drop_last();
        law_counts_are_sums(side, start, front);
        if calls.last() !is Reported {
            assert(since_report(calls).drop_last() =~= since_report(front));
        }
    }
}

/// After a report, and until the next, the window counts what the totals have
/// grown by since.
pub proof fn law_window_is_growth_since_report(counts: Counts, now: nat, calls: Seq<Call>)
    requires
        forall|i: int| 0 <= i < calls.len() ==> calls[i] !is Reported,
    ensures
        ({
            let after = counts_after(counts.reported(now), calls);
            &&& after.link_recv_bytes + counts.link_recv_total_bytes == after.link_recv_total_bytes
            &&& after.link_send_bytes + counts.link_send_total_bytes == after.link_send_total_bytes
            &&& after.packets_in + counts.packets_in_total == after.packets_in_total
            &&& after.packets_out + counts.packets_out_total == after.packets_out_total
            &&& after.last_ts == now
        }),
    decreases calls.len(),
{
    if calls.len() > 0 {
        law_window_is_growth_since_report(counts, now, calls.drop_last());
        assert(calls[calls.len() - 1] !is Reported);
    }
}

/// Fresh counters stand at nothing.
pub proof fn law_fresh_counters(side: Side, now: nat)
    ensures
        ({
            let counts = Counts::zero(side, now);
            &&& counts.side == side && counts.last_ts == now
            &&& counts.link_send_total_bytes + counts.link_send_bytes + counts.link_recv_total_bytes
                + counts.link_recv_bytes + counts.packets_in + counts.packets_out
                + counts.packets_in_total + counts.packets_out_total
                + counts.total_ground_station_bytes + counts.total_serial_port_bytes == 0
        }),
{
}

/// A packet that comes in makes the two byte counters of that direction grow by its
/// size, and the two packet counters by one. Nothing else changes; a packet that
/// goes out is counted in the same way, on the other side.
pub proof fn law_packets_are_counted(counts: Counts, n: nat)
    ensures
        ({
            let after = counts.received(n);
            &&& after.link_recv_bytes - counts.link_recv_bytes == n
            &&& after.link_recv_total_bytes - counts.link_recv_total_bytes == n
            &&& after.packets_in - counts.packets_in == 1
            &&& after.packets_in_total - counts.packets_in_total == 1
            &&& counts == (Counts {
                link_recv_bytes: counts.link_recv_bytes,
                link_recv_total_bytes: counts.link_recv_total_bytes,
                packets_in: counts.packets_in,
                packets_in_total: counts.packets_in_total,
                ..after
            })
        }),
        ({
            let after = counts.sent(n);
            &&& after.link_send_bytes - counts.link_send_bytes == n
            &&& after.link_send_total_bytes - counts.link_send_total_bytes == n
            &&& after.packets_out - counts.packets_out == 1
            &&& after.packets_out_total - counts.packets_out_total == 1
            &&& counts == (Counts {
                link_send_bytes: counts.link_send_bytes,
                link_send_total_bytes: counts.link_send_total_bytes,
                packets_out: counts.packets_out,
                packets_out_total: counts.packets_out_total,
                ..after
            })
        }),
{
}

/// Bytes of the ground station and of the serial port make their own totals grow,
/// and nothing else.
pub proof fn law_bytes_are_counted(counts: Counts, n: nat)
    ensures
        ({
            let after = counts.from_ground_station(n);
            &&& after.total_ground_station_bytes - counts.total_ground_station_bytes == n
            &&& counts == (Counts {
                total_ground_station_bytes: counts.total_ground_station_bytes,
                ..after
            })
        }),
        ({
            let after = counts.from_serial_port(n);
            &&& after.total_serial_port_bytes - counts.total_serial_port_bytes == n
            &&& counts == (Counts {
                total_serial_port_bytes: counts.total_serial_port_bytes,
                ..after
            })
        }),
{
}

/// A report leaves an empty window that starts at its time, and keeps all totals.
pub proof fn law_report_starts_a_window(counts: Counts, now: nat)
    ensures
        ({
            let after = counts.reported(now);
            &&& after.last_ts == now
            &&& after.link_send_bytes + after.link_recv_bytes + after.packets_in + after.packets_out
                == 0
            &&& after.side == counts.side
            &&& after.link_send_total_bytes == counts.link_send_total_bytes
            &&& after.link_recv_total_bytes == counts.link_recv_total_bytes
            &&& after.packets_in_total == counts.packets_in_total
            &&& after.packets_out_total == counts.packets_out_total
            &&& after.total_ground_station_bytes == counts.total_ground_station_bytes
            &&& after.total_serial_port_bytes == counts.total_serial_port_bytes
        }),
{
}

/// A packet can be counted exactly where every counter would still fit into its
/// type afterwards.
pub proof fn law_what_fits_can_be_counted(counts: Counts, n: nat)
    ensures
        counts.can_receive(n) <==> counts.link_recv_bytes + n <= 0xFFFF_FFFF
            && counts.link_recv_total_bytes + n <= 0xFFFF_FFFF_FFFF_FFFF && counts.packets_in + 1
            <= 0xFFFF_FFFF && counts.packets_in_total + 1 <= 0xFFFF_FFFF_FFFF_FFFF,
        counts.can_send(n) <==> counts.link_send_bytes + n <= 0xFFFF_FFFF
            && counts.link_send_total_bytes + n <= 0xFFFF_FFFF_FFFF_FFFF && counts.packets_out + 1
            <= 0xFFFF_FFFF && counts.packets_out_total + 1 <= 0xFFFF_FFFF_FFFF_FFFF,
{
}

/// A number with its label.
pub open spec fn labelled(label: Seq<char>, value: nat) -> Seq<char> {
    label + decimal(value)
}

/// The report names nine numbers, each with its label in front: the rates, the
/// totals of both directions, and the total of what the side itself talks to.
pub proof fn law_report_names_the_numbers(counts: Counts, rates: Rates)
    ensures
        ({
            let rates_text = labelled("link in B/s: "@, rates.in_bps as nat) + labelled(
                ", link out B/s: "@,
                rates.out_bps as nat,
            ) + (labelled(", packets in / s: "@, rates.in_pps as nat) + labelled(
                ", packets out / s: "@,
                rates.out_pps as nat,
            ));
            let totals_text = labelled(", total packets in: "@, counts.packets_in_total) + labelled(
                ", total packets out: "@,
                counts.packets_out_total,
            ) + (labelled(" total bytes in: "@, counts.link_recv_total_bytes) + labelled(
                ", total bytes out: "@,
                counts.link_send_total_bytes,
            ));
            &&& counts.side is GroundControl ==> counts.report(rates) == rates_text + totals_text
                + labelled(", total ground station bytes: "@, counts.total_ground_station_bytes)
            &&& counts.side is FlightController ==> counts.report(rates) == rates_text + totals_text
                + labelled(", total serial port bytes: "@, counts.total_serial_port_bytes)
        }),
{
    let rates_text = labelled("link in B/s: "@, rates.in_bps as nat) + labelled(
        ", link out B/s: "@,
        rates.out_bps as nat,
    ) + (labelled(", packets in / s: "@, rates.in_pps as nat) + labelled(
        ", packets out / s: "@,
        rates.out_pps as nat,
    ));
    let totals_text = labelled(", total packets in: "@, counts.packets_in_total) + labelled(
        ", total packets out: "@,
        counts.packets_out_total,
    ) + (labelled(" total bytes in: "@, counts.link_recv_total_bytes) + labelled(
        ", total bytes out: "@,
        counts.link_send_total_bytes,
    ));
    assert(counts.report(rates) =~= rates_text + totals_text + counts.side_text());
}

/// Two reports on counters with the same totals and rates read the same, whatever
/// has been counted since the last one and whenever that was.
pub proof fn law_report_is_about_totals(one: Counts, other: Counts, rates: Rates)
    requires
        one.reported(0) == other.reported(0),
    ensures
        one.report(rates) == other.report(rates),
{
    let zero = one.reported(0);
    assert(one.report(rates) == zero.report(rates));
    assert(other.report(rates) == zero.report(rates));
}

/// Reports are two seconds apart.
pub proof fn law_report_interval()
    ensures
        THROUGHPUT_LOG_FREQUENCY_SECONDS == 2,
{
}

/// Where reports are asked for, one is made after each wait of two seconds, and
/// none without a wait; where they are not, nothing is ever done.
pub proof fn law_reports_follow_waits(log_throughput: bool, event: ReportEvent)
    ensures
        report_action(log_throughput, event) is Report <==> log_throughput && event is Waited,
        report_action(log_throughput, event) is Rest <==> !log_throughput,
        report_action(log_throughput, event) matches ReportAction::Wait { seconds } ==> seconds
            == 2,
{
}

} // verus!
