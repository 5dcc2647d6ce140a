use toolza_sender::history::{year_and_day, HistoryStats};
use toolza_sender::scanner::{
    parse_subnets, batch_range, scan_progress, subnets_or_local, Subnet, PROBE_TIMEOUT_MILLIS, SCAN_BATCH_COUNT,
    SCAN_BATCH_SIZE,
};
use toolza_sender::speedtest::{
    client_step, data_frame, frame_count, mean_latency, next_frame_len, progress_percent,
    server_step, ClientAction, ClientPhase, ServerAction, ServerPhase, PING_COUNT,
};
use toolza_sender::protocol::Message;
use toolza_sender::stats::{adapt_chunk_size, format_secs, TransferStats};
use toolza_sender::text::{push_decimal, push_fixed1, push_fixed2};
use toolza_sender::tokens::{is_one_of, parse_octet, split_bytes, trim_bytes};
use toolza_sender::transport::TransportType;
use toolza_sender::address::{format_ipv4, local_ip_display, parse_ipv4};
use toolza_sender::utils::{get_local_ip_string, local_ip_label, truncate_string};

#[test]
fn test_adapt_chunk_size_values() {
    // 10 MB/s wants 750 000 bytes per chunk: clamped to the maximum, and
    // approached by a factor of 3/2.
    assert_eq!(adapt_chunk_size(65536, 10_000_000), 98304);
    // 1 B/s wants the minimum: approached by a factor of 2/3.
    assert_eq!(adapt_chunk_size(65536, 1), 43690);
    assert_eq!(adapt_chunk_size(20000, 1), 16384);
    // 1 MB/s wants 75 000 bytes.
    assert_eq!(adapt_chunk_size(65536, 1_000_000), 75000);
    assert_eq!(adapt_chunk_size(75000, 1_000_000), 75000);
    assert_eq!(adapt_chunk_size(400000, 10_000_000), 524288);
    assert_eq!(adapt_chunk_size(524288, u64::MAX), 524288);
    // No speed, no change.
    assert_eq!(adapt_chunk_size(65536, 0), 65536);
    // A size out of range is brought back by any step.
    assert_eq!(adapt_chunk_size(1, 1), 16384);
    assert_eq!(adapt_chunk_size(usize::MAX, u64::MAX), 524288);
}

#[test]
fn test_adapt_chunk_size_stays_in_range() {
    let speeds = [0u64, 1, u64::MAX, 5, 1 << 40, 0, 3, 218_453, 218_454, 6_990_506, 6_990_507];
    let mut chunk = 65536usize;
    for round in 0..200 {
        let next = adapt_chunk_size(chunk, speeds[round % speeds.len()]);
        assert!((16384..=524288).contains(&next));
        assert!(next <= chunk * 3 / 2 && next >= chunk * 2 / 3);
        chunk = next;
    }
}

#[test]
fn test_window_never_exceeds_ten() {
    let mut stats = TransferStats::new(1_000_000, 1);
    assert_eq!(stats.window_len(), 0);
    for i in 0..25u64 {
        stats.record(i * 1000, i * 100, 100, 80);
        assert!(stats.window_len() <= 10);
        assert_eq!(stats.window_len(), std::cmp::min(i as usize + 1, 10));
        assert!((16384..=524288).contains(&stats.current_chunk_size));
    }
    assert_eq!(stats.speed_samples.ends(), Some(((15_000, 1500), (24_000, 2400))));
    assert_eq!(stats.speed_samples.len(), 10);
    assert_eq!(stats.clone().speed_samples.ends(), stats.speed_samples.ends());
    for _ in 0..15 {
        stats.update(5000, 1, 1);
        assert!(stats.window_len() <= 10);
    }
}

#[test]
fn test_speed_and_eta_from_window() {
    let mut stats = TransferStats::new(10_000, 1);
    assert_eq!(stats.speed_bytes_per_sec(), 0);
    assert_eq!(stats.eta_secs(), None);
    stats.record(0, 0, 0, 0);
    assert_eq!(stats.speed_bytes_per_sec(), 0);
    stats.record(500, 1000, 1000, 1000);
    // Less than a millisecond apart: no speed yet.
    assert_eq!(stats.speed_bytes_per_sec(), 0);
    assert_eq!(stats.eta_secs(), None);
    stats.record(2_000_000, 4000, 3000, 3000);
    assert_eq!(stats.speed_bytes_per_sec(), 2000);
    assert_eq!(stats.eta_secs(), Some(3));
    assert_eq!(stats.eta_formatted(), "3с");
    assert_eq!(stats.speed_formatted(), "2.0 KB/s");
    assert!(stats.eta().is_some());
    assert_eq!(stats.transferred_bytes, 4000);
    assert_eq!(stats.bytes_before_compression, 4000);
    // 2000 B/s wants 150 bytes per chunk: the size shrinks toward the
    // minimum, one step for the one record that saw a speed.
    assert_eq!(stats.current_chunk_size, 43690);
    stats.transferred_bytes = 20_000;
    assert_eq!(stats.eta_secs(), Some(0));
}

#[test]
fn test_record_saturates_totals() {
    let mut stats = TransferStats::new(10, 1);
    stats.record(1, 1, u64::MAX, u64::MAX - 1);
    stats.record(2, 2, 5, 1);
    assert_eq!(stats.bytes_before_compression, u64::MAX);
    assert_eq!(stats.bytes_after_compression, u64::MAX);
    stats.files_completed = usize::MAX;
    stats.file_completed();
    assert_eq!(stats.files_completed, usize::MAX);
}

#[test]
fn test_compression_formatted_values() {
    let mut stats = TransferStats::new(10, 1);
    assert_eq!(stats.compression_formatted(), "без сжатия");
    stats.bytes_before_compression = 1000;
    stats.bytes_after_compression = 990;
    assert_eq!(stats.compression_formatted(), "без сжатия");
    stats.bytes_after_compression = 989;
    assert_eq!(stats.compression_formatted(), "1.1% экономия");
    stats.bytes_after_compression = 500;
    assert_eq!(stats.compression_formatted(), "50.0% экономия");
    stats.bytes_after_compression = 0;
    assert_eq!(stats.compression_formatted(), "100.0% экономия");
    stats.bytes_after_compression = 2000;
    assert_eq!(stats.compression_formatted(), "без сжатия");
}

#[test]
fn test_format_secs() {
    assert_eq!(format_secs(0), "0с");
    assert_eq!(format_secs(59), "59с");
    assert_eq!(format_secs(60), "1м 0с");
    assert_eq!(format_secs(3599), "59м 59с");
    assert_eq!(format_secs(3600), "1ч 0м");
    assert_eq!(format_secs(u64::MAX), "5124095576030431ч 0м");
}

#[test]
fn test_text_helpers() {
    let mut s = String::from("n=");
    push_decimal(&mut s, 0);
    push_decimal(&mut s, 1234567890);
    assert_eq!(s, "n=01234567890");
    let mut s = String::new();
    push_decimal(&mut s, u128::MAX);
    assert_eq!(s, u128::MAX.to_string());
    // Ties go to the even neighbour.
    let mut s = String::new();
    push_fixed1(&mut s, 1, 4);
    assert_eq!(s, "0.2");
    let mut s = String::new();
    push_fixed1(&mut s, 3, 4);
    assert_eq!(s, "0.8");
    let mut s = String::new();
    push_fixed2(&mut s, 1152, 1024);
    assert_eq!(s, "1.12");
    let mut s = String::new();
    push_fixed2(&mut s, 1999, 1000);
    assert_eq!(s, "2.00");
    let mut s = String::new();
    push_fixed2(&mut s, 5, 100);
    assert_eq!(s, "0.05");
}

#[test]
fn test_truncate_string() {
    assert_eq!(truncate_string("hello", 10), "hello");
    assert_eq!(truncate_string("hello", 5), "hello");
    assert_eq!(truncate_string("hello world", 8), "...world");
    assert_eq!(truncate_string("привет, мир", 6), "...мир");
    assert_eq!(truncate_string("hello", 3), "...");
    assert_eq!(truncate_string("hello", 0), "...");
    assert_eq!(truncate_string("", 0), "");
}

#[test]
fn test_local_ip_label() {
    assert_eq!(local_ip_label(Some("192.168.1.5".to_string())), "192.168.1.5");
    assert_eq!(local_ip_label(None), "Не определён");
}

#[test]
fn test_tokens() {
    assert_eq!(split_bytes(b"", b","), vec![Vec::<u8>::new()]);
    assert_eq!(split_bytes(b"a,b;;c", b",;"), vec![b"a".to_vec(), b"b".to_vec(), vec![], b"c".to_vec()]);
    assert_eq!(split_bytes(b",", b","), vec![Vec::<u8>::new(), vec![]]);
    assert!(is_one_of(b';', b",; "));
    assert!(!is_one_of(b'.', b",; "));
    assert_eq!(parse_octet(b"0"), Some(0));
    assert_eq!(parse_octet(b"255"), Some(255));
    assert_eq!(parse_octet(b"256"), None);
    assert_eq!(parse_octet(b"007"), Some(7));
    assert_eq!(parse_octet(b"+12"), Some(12));
    assert_eq!(parse_octet(b""), None);
    assert_eq!(parse_octet(b"+"), None);
    assert_eq!(parse_octet(b"-1"), None);
    assert_eq!(parse_octet(b"1a"), None);
    assert_eq!(parse_octet(b"99999999999999999999"), None);
    assert_eq!(trim_bytes(b"  a b \t\r\n"), b"a b");
    assert_eq!(trim_bytes(b"\x0b\x0c"), b"");
    assert_eq!(trim_bytes(b""), b"");
    assert_eq!(trim_bytes(b"x"), b"x");
    assert_eq!("\t 1.2.3\x0b\x0c".trim().as_bytes(), trim_bytes(b"\t 1.2.3\x0b\x0c"));
    let subnets = parse_subnets("\t192.168.1\n,10.0.0\r\n;\t;1.2\t.3");
    assert_eq!(subnets.len(), 2);
    assert_eq!(subnets[1].octets, [10, 0, 0]);
    assert_eq!("+12".parse::<u8>().ok(), parse_octet(b"+12"));
    assert_eq!("007".parse::<u8>().ok(), parse_octet(b"007"));
    assert_eq!("".parse::<u8>().ok(), parse_octet(b""));
}

#[test]
fn test_subnet_parse_edges() {
    assert_eq!(Subnet::parse("192.168.1.x").unwrap().octets, [192, 168, 1]);
    assert_eq!(Subnet::parse("1.2.3.4.5.6").unwrap().octets, [1, 2, 3]);
    assert_eq!(Subnet::parse("1.2.3/24/8").unwrap().octets, [1, 2, 3]);
    assert!(Subnet::parse("1.2/3.4").is_none());
    assert!(Subnet::parse("1..3").is_none());
    assert!(Subnet::parse("1.2.256").is_none());
    assert!(Subnet::parse(" 1.2.3").is_none());
    assert_eq!(Subnet::new(127, 0, 0).ip(1), [127, 0, 0, 1]);
    assert_eq!(Subnet::new(0, 0, 0).base(), "0.0.0.");
    assert_eq!(Subnet::new(255, 255, 255).to_string(), "255.255.255.0/24");
}

#[test]
fn test_subnets_or_local() {
    let local = Some(Subnet::new(192, 168, 0));
    assert_eq!(subnets_or_local("", local), vec![Subnet::new(192, 168, 0)]);
    assert_eq!(subnets_or_local("nonsense", local), vec![Subnet::new(192, 168, 0)]);
    assert_eq!(subnets_or_local("", None), vec![]);
    assert_eq!(subnets_or_local("127.0.0.0/24", local), vec![Subnet::new(127, 0, 0)]);
}

#[test]
fn test_scan_batches_cover_every_host_once() {
    assert_eq!(SCAN_BATCH_SIZE, 32);
    assert_eq!(PROBE_TIMEOUT_MILLIS, 100);
    assert_eq!(batch_range(0), (1, 33));
    assert_eq!(batch_range(1), (33, 65));
    assert_eq!(batch_range(7), (225, 255));
    let mut seen = vec![0u32; 256];
    for k in 0..SCAN_BATCH_COUNT {
        let (start, end) = batch_range(k);
        assert!(end - start <= 32);
        for host in start..end {
            seen[host as usize] += 1;
        }
    }
    for host in 0..256usize {
        assert_eq!(seen[host], if (1..=254).contains(&host) { 1 } else { 0 });
    }
}

#[test]
fn test_scan_progress() {
    assert_eq!(scan_progress(0, 1, 33), 12);
    assert_eq!(scan_progress(0, 1, 255), 100);
    assert_eq!(scan_progress(0, 2, 255), 50);
    assert_eq!(scan_progress(1, 2, 33), 56);
    assert_eq!(scan_progress(1, 2, 255), 100);
    assert_eq!(scan_progress(0, 1, 0), 0);
}

#[test]
fn test_speedtest_frames() {
    assert_eq!(PING_COUNT, 5);
    assert_eq!(next_frame_len(100_000, 0), 65536);
    assert_eq!(next_frame_len(100_000, 65536), 34464);
    assert_eq!(next_frame_len(100_000, 100_000), 0);
    assert_eq!(next_frame_len(0, 0), 0);
    assert_eq!(next_frame_len(5, 9), 0);
    assert_eq!(frame_count(10 * 1024 * 1024), 160);
    assert_eq!(frame_count(100_000), 2);
    assert_eq!(frame_count(65536), 1);
    assert_eq!(frame_count(1), 1);
    assert_eq!(frame_count(0), 0);
    let mut sent = 0u64;
    let mut frames = 0u64;
    while next_frame_len(1_000_000, sent) > 0 {
        sent += next_frame_len(1_000_000, sent) as u64;
        frames += 1;
    }
    assert_eq!(sent, 1_000_000);
    assert_eq!(frames, frame_count(1_000_000));
    assert_eq!(data_frame(3, 0xAB), Message::SpeedTestData { data: vec![0xAB; 3] });
    assert_eq!(data_frame(0, 0xCD), Message::SpeedTestData { data: vec![] });
    assert_eq!(progress_percent(0, 100), 0);
    assert_eq!(progress_percent(1, 3), 33);
    assert_eq!(progress_percent(100, 100), 100);
    assert_eq!(progress_percent(5, 0), 100);
    assert_eq!(progress_percent(200, 100), 100);
    assert_eq!(mean_latency(&[]), 0);
    assert_eq!(mean_latency(&[10, 20, 30, 40, 51]), 30);
    assert_eq!(mean_latency(&[u64::MAX, u64::MAX]), u64::MAX);
}

#[test]
fn test_speedtest_turns() {
    let data = Message::SpeedTestData { data: vec![1] };
    assert_eq!(server_step(ServerPhase::Draining, &data), (ServerPhase::Draining, ServerAction::Discard));
    assert_eq!(
        server_step(ServerPhase::Draining, &Message::SpeedTestEnd),
        (ServerPhase::AwaitFinalAck, ServerAction::AckThenSend)
    );
    assert_eq!(server_step(ServerPhase::Draining, &Message::Ack), (ServerPhase::Failed, ServerAction::Fail));
    assert_eq!(
        server_step(ServerPhase::AwaitFinalAck, &Message::Ack),
        (ServerPhase::Finished, ServerAction::Finish)
    );
    assert_eq!(server_step(ServerPhase::Failed, &data), (ServerPhase::Failed, ServerAction::Fail));

    let mut phase = ClientPhase::Pinging(PING_COUNT);
    for _ in 0..4 {
        let (next, action) = client_step(phase, &Message::Ack);
        assert_eq!(action, ClientAction::NextPing);
        phase = next;
    }
    assert_eq!(phase, ClientPhase::Pinging(1));
    assert_eq!(client_step(phase, &Message::Ack), (ClientPhase::AwaitReady, ClientAction::SendRequest));
    assert_eq!(
        client_step(ClientPhase::AwaitReady, &Message::SpeedTestReady),
        (ClientPhase::AwaitUploadAck, ClientAction::Upload)
    );
    assert_eq!(
        client_step(ClientPhase::AwaitUploadAck, &Message::Ack),
        (ClientPhase::Downloading, ClientAction::BeginDownload)
    );
    assert_eq!(client_step(ClientPhase::Downloading, &data), (ClientPhase::Downloading, ClientAction::Count));
    assert_eq!(
        client_step(ClientPhase::Downloading, &Message::SpeedTestEnd),
        (ClientPhase::Finished, ClientAction::AckAndReport)
    );
    assert_eq!(client_step(ClientPhase::AwaitReady, &Message::Ack), (ClientPhase::Failed, ClientAction::Fail));
    assert_eq!(client_step(ClientPhase::Pinging(3), &data), (ClientPhase::Failed, ClientAction::Fail));
    assert_eq!(client_step(ClientPhase::Finished, &data), (ClientPhase::Finished, ClientAction::Ignore));
}

#[test]
fn test_transport_type() {
    assert_eq!(TransportType::default(), TransportType::Tcp);
    assert_eq!(TransportType::from_str("tcp"), Some(TransportType::Tcp));
    assert_eq!(TransportType::from_str("UDP"), Some(TransportType::Udp));
    assert_eq!(TransportType::from_str("Quic"), Some(TransportType::Quic));
    assert_eq!(TransportType::from_str("kcp"), Some(TransportType::Kcp));
    assert_eq!(TransportType::from_str("sctp"), None);
    assert_eq!(TransportType::from_str(""), None);
    assert_eq!(TransportType::from_str("tcp "), None);
    assert_eq!(TransportType::Tcp.name(), "TCP");
    assert_eq!(TransportType::Kcp.name(), "KCP");
    assert!(TransportType::Udp.description().contains("⚠️"));
    assert!(!TransportType::Udp.is_reliable());
    assert!(TransportType::Quic.is_reliable());
    assert_eq!(
        TransportType::all(),
        vec![TransportType::Tcp, TransportType::Udp, TransportType::Quic, TransportType::Kcp]
    );
}

#[test]
fn test_calendar() {
    assert_eq!(year_and_day(0), (1970, 0));
    assert_eq!(year_and_day(364), (1970, 364));
    assert_eq!(year_and_day(365), (1971, 0));
    // 1 January 2024 is day 19723 since the start of 1970.
    assert_eq!(year_and_day(19723), (2024, 0));
    assert_eq!(year_and_day(19723 + 365), (2024, 365));
    assert_eq!(year_and_day(19723 + 366), (2025, 0));
    assert_eq!(HistoryStats::default().total_transfers, 0);
}

#[test]
fn test_local_ip_display() {
    assert_eq!(parse_ipv4("192.168.1.5"), Some((192, 168, 1, 5)));
    assert_eq!(parse_ipv4("0.0.0.0"), Some((0, 0, 0, 0)));
    assert_eq!(parse_ipv4("255.255.255.255"), Some((255, 255, 255, 255)));
    assert_eq!(parse_ipv4("192.168.1"), None);
    assert_eq!(parse_ipv4("192.168.1.5.6"), None);
    assert_eq!(parse_ipv4("192.168.1.256"), None);
    assert_eq!(parse_ipv4("fe80::1"), None);
    assert_eq!(parse_ipv4(""), None);
    assert_eq!(format_ipv4(10, 0, 0, 1), "10.0.0.1");
    assert_eq!(format_ipv4(255, 255, 255, 255), "255.255.255.255");
    assert_eq!(local_ip_display(Some("192.168.1.5".to_string())), "192.168.1.5");
    assert_eq!(local_ip_display(Some("010.0.0.001".to_string())), "10.0.0.1");
    assert_eq!(local_ip_display(Some("fe80::1".to_string())), "Не определён");
    assert_eq!(local_ip_display(Some(String::new())), "Не определён");
    assert_eq!(local_ip_display(None), "Не определён");
    let shown = get_local_ip_string();
    assert!(shown == "Не определён" || parse_ipv4(&shown).is_some());
    if let Some((a, b, c, d)) = parse_ipv4(&shown) {
        assert_eq!(format_ipv4(a, b, c, d), shown);
    }
}
