use rns_mavlink::throughput::{report_step, Rates, ReportAction, ReportEvent, Throughput, Window};

const RATES: Rates = Rates { in_bps: 10, out_bps: 2000, in_pps: 0, out_pps: 4294967295 };

#[test]
fn report_of_ground_control() {
    let mut counters = Throughput::new_gc(5);
    counters.recv_packet(100);
    counters.recv_packet(23);
    counters.send_packet(7);
    counters.ground_station_bytes(1234567890123);
    assert_eq!(
        counters.window(),
        Window { link_recv_bytes: 123, link_send_bytes: 7, packets_in: 2, packets_out: 1 }
    );
    assert_eq!(
        counters.log(9, RATES),
        "link in B/s: 10, link out B/s: 2000, packets in / s: 0, packets out / s: 4294967295, \
         total packets in: 2, total packets out: 1 total bytes in: 123, total bytes out: 7\
         , total ground station bytes: 1234567890123"
    );
}

#[test]
fn report_of_flight_controller() {
    let mut counters = Throughput::new_fc(0);
    counters.serial_port_bytes(44);
    counters.ground_station_bytes(3);
    assert_eq!(counters.serial_port_total(), 44);
    assert_eq!(counters.ground_station_total(), 3);
    assert!(counters.log(1, RATES).ends_with("total bytes out: 0, total serial port bytes: 44"));
}

#[test]
fn report_starts_a_window_and_keeps_the_totals() {
    let mut counters = Throughput::new_fc(100);
    counters.recv_packet(10);
    counters.send_packet(20);
    assert_eq!(counters.elapsed(350), 250);
    assert_eq!(counters.elapsed(99), 0);
    counters.log(350, RATES);
    assert_eq!(counters.elapsed(351), 1);
    assert_eq!(
        counters.window(),
        Window { link_recv_bytes: 0, link_send_bytes: 0, packets_in: 0, packets_out: 0 }
    );
    counters.recv_packet(1);
    let line = counters.log(351, RATES);
    assert!(line.contains("total packets in: 2, total packets out: 1"));
    assert!(line.contains("total bytes in: 11, total bytes out: 20"));
}

#[test]
fn counters_say_when_they_are_full() {
    let mut counters = Throughput::new_gc(0);
    assert!(counters.can_recv_packet(u32::MAX));
    counters.recv_packet(u32::MAX - 1);
    assert!(counters.can_recv_packet(1));
    assert!(!counters.can_recv_packet(2));
    counters.send_packet(u32::MAX);
    assert!(counters.can_send_packet(0));
    assert!(!counters.can_send_packet(1));
}

#[test]
fn reports_are_made_where_they_are_asked_for() {
    let wait = ReportAction::Wait { seconds: 2 };
    assert_eq!(report_step(true, ReportEvent::Begin), wait);
    assert_eq!(report_step(true, ReportEvent::Waited), ReportAction::Report);
    assert_eq!(report_step(true, ReportEvent::Reported), wait);
    assert_eq!(report_step(false, ReportEvent::Begin), ReportAction::Rest);
}

#[test]
fn totals_go_on_over_several_reports() {
    let mut counters = Throughput::new_gc(0);
    let mut total: u64 = 0;
    for report in 1..=3u64 {
        for size in [5, 6] {
            counters.recv_packet(size);
            counters.send_packet(2 * size);
            total += size as u64;
        }
        counters.ground_station_bytes(100);
        assert_eq!(
            counters.window(),
            Window { link_recv_bytes: 11, link_send_bytes: 22, packets_in: 2, packets_out: 2 }
        );
        let line = counters.log(report, RATES);
        assert!(line.ends_with(&format!(
            "total packets in: {0}, total packets out: {0} total bytes in: {1}, \
             total bytes out: {2}, total ground station bytes: {3}",
            2 * report,
            total,
            2 * total,
            100 * report
        )));
    }
}
