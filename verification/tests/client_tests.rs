use mproxy_client::addr::IpAddress;
use mproxy_client::addr::SocketAddress;
use mproxy_client::backup::backup_file_name;
use mproxy_client::backup::ends_with_log;
use mproxy_client::backup::format_log_file_name;
use mproxy_client::backup::parse_date_prefix;
use mproxy_client::backup::should_delete_backup;
use mproxy_client::backup::sweep_expired_backups;
use mproxy_client::backup::BackupDate;
use mproxy_client::binder::target_socket_interface;
use mproxy_client::binder::JoinPlan;
use mproxy_client::binder::Platform;
use mproxy_client::binder::SetupError;
use mproxy_client::dispatch::send_kind;
use mproxy_client::dispatch::stream_step;
use mproxy_client::dispatch::SendKind;
use mproxy_client::dispatch::StreamStep;
use mproxy_client::MAX_CHUNK_SIZE;

fn v4(a: u8, b: u8, c: u8, d: u8, port: u16) -> SocketAddress {
    SocketAddress { ip: IpAddress::V4 { a, b, c, d }, port }
}

fn v6(first_segment: u16, last_segment: u16, port: u16) -> SocketAddress {
    SocketAddress {
        ip: IpAddress::V6 { segments: [first_segment, 0, 0, 0, 0, 0, 0, last_segment] },
        port,
    }
}

const UNSPEC_V4: IpAddress = IpAddress::V4 { a: 0, b: 0, c: 0, d: 0 };
const UNSPEC_V6: IpAddress = IpAddress::V6 { segments: [0, 0, 0, 0, 0, 0, 0, 0] };

// 2020-01-01T00:00:00Z.
const Y2020: i64 = 1577836800;

#[test]
fn plan_unicast_ipv4() {
    let target = v4(127, 0, 0, 1, 9910);
    let (resolved, plan) =
        target_socket_interface(Some(target), Platform::Linux).expect("setup plan");
    assert_eq!(resolved, target);
    assert_eq!(plan.bind_address, SocketAddress { ip: UNSPEC_V4, port: 0 });
    assert_eq!(plan.connect_to, None);
    assert_eq!(plan.join, JoinPlan::NoJoin);
}

#[test]
fn plan_multicast_ipv4_joins_group() {
    let target = v4(224, 0, 0, 110, 9911);
    let (resolved, plan) =
        target_socket_interface(Some(target), Platform::Linux).expect("setup plan");
    assert_eq!(resolved, target);
    assert_eq!(plan.bind_address, SocketAddress { ip: UNSPEC_V4, port: 0 });
    assert_eq!(plan.connect_to, None);
    assert_eq!(plan.join, JoinPlan::JoinV4 { group: target.ip });
}

#[test]
fn plan_unicast_ipv6() {
    let target = v6(0, 1, 9912);
    let (_, plan) = target_socket_interface(Some(target), Platform::Linux).expect("setup plan");
    assert_eq!(plan.bind_address, SocketAddress { ip: UNSPEC_V6, port: 0 });
    assert_eq!(plan.connect_to, None);
    assert_eq!(plan.join, JoinPlan::NoJoin);
}

#[test]
fn plan_multicast_ipv6_preconnects_unspecified() {
    let target = v6(0xff02, 1, 9913);
    let (_, plan) = target_socket_interface(Some(target), Platform::Linux).expect("setup plan");
    assert_eq!(plan.bind_address, SocketAddress { ip: UNSPEC_V6, port: 0 });
    assert_eq!(plan.connect_to, Some(SocketAddress { ip: UNSPEC_V6, port: 9913 }));
    assert_eq!(plan.join, JoinPlan::JoinV6 { group: target.ip, interface_index: 0 });
}

#[test]
fn plan_multicast_ipv6_windows_connects_target() {
    let target = v6(0xff02, 1, 9913);
    let (_, plan) = target_socket_interface(Some(target), Platform::Windows).expect("setup plan");
    assert_eq!(plan.connect_to, Some(target));
    assert_eq!(plan.join, JoinPlan::JoinV6 { group: target.ip, interface_index: 0 });
}

#[test]
fn plan_multicast_ipv6_macos_queries_interface() {
    let target = v6(0xff02, 1, 9913);
    match target_socket_interface(Some(target), Platform::MacOs) {
        Ok((_, plan)) => {
            assert_eq!(plan.connect_to, Some(SocketAddress { ip: UNSPEC_V6, port: 9913 }));
            assert!(matches!(plan.join, JoinPlan::JoinV6 { group, .. } if group == target.ip));
        }
        Err(error) => assert_eq!(error, SetupError::MulticastJoin),
    }
}

#[test]
fn plan_unresolved_address_is_fatal() {
    let r = target_socket_interface(None, Platform::Linux);
    assert_eq!(r.map(|p| p.0), Err(SetupError::AddressResolution));
}

#[test]
fn multicast_classification_boundaries() {
    assert!(matches!(
        target_socket_interface(Some(v4(223, 255, 255, 255, 1)), Platform::Linux),
        Ok((_, plan)) if plan.join == JoinPlan::NoJoin
    ));
    assert!(matches!(
        target_socket_interface(Some(v4(239, 255, 255, 255, 1)), Platform::Linux),
        Ok((_, plan)) if plan.join != JoinPlan::NoJoin
    ));
    assert!(matches!(
        target_socket_interface(Some(v4(240, 0, 0, 1, 1)), Platform::Linux),
        Ok((_, plan)) if plan.join == JoinPlan::NoJoin
    ));
    assert!(matches!(
        target_socket_interface(Some(v6(0xfeff, 1, 1)), Platform::Linux),
        Ok((_, plan)) if plan.join == JoinPlan::NoJoin
    ));
    assert!(matches!(
        target_socket_interface(Some(v6(0xff00, 1, 1)), Platform::Linux),
        Ok((_, plan)) if plan.join != JoinPlan::NoJoin
    ));
}

#[test]
fn send_kinds_follow_address_family() {
    assert_eq!(send_kind(&v4(127, 0, 0, 1, 1)), SendKind::ToAddress);
    assert_eq!(send_kind(&v4(224, 0, 0, 110, 1)), SendKind::ToAddress);
    assert_eq!(send_kind(&v6(0, 1, 1)), SendKind::ToAddress);
    assert_eq!(send_kind(&v6(0xff02, 1, 1)), SendKind::Preconnected);
}

#[test]
fn zero_byte_read_stops_loop() {
    let chunk: Vec<u8> = Vec::new();
    let targets = vec![v4(127, 0, 0, 1, 9910)];
    assert_eq!(stream_step(&chunk, &targets, true, true), StreamStep::Stop);
}

#[test]
fn lone_newline_chunk_is_skipped_everywhere() {
    let chunk = vec![b'\n'];
    let targets = vec![v4(127, 0, 0, 1, 9910), v6(0xff02, 1, 9913)];
    assert_eq!(stream_step(&chunk, &targets, true, true), StreamStep::Skip);
}

#[test]
fn multibyte_chunk_ending_in_newline_is_forwarded() {
    let chunk = b"hello\n".to_vec();
    let targets = vec![v4(127, 0, 0, 1, 9910)];
    match stream_step(&chunk, &targets, false, false) {
        StreamStep::Forward(plan) => {
            assert!(!plan.backup);
            assert!(!plan.tee);
            assert_eq!(plan.sends, vec![SendKind::ToAddress]);
        }
        other => panic!("expected a forward plan, got {:?}", other),
    }
}

#[test]
fn fanout_sends_once_per_target_in_order() {
    let chunk = b"0123456789".to_vec();
    let targets = vec![
        v4(127, 0, 0, 1, 9915),
        v4(224, 0, 0, 110, 9911),
        v6(0xff02, 1, 9913),
        v6(0, 1, 9912),
    ];
    match stream_step(&chunk, &targets, true, true) {
        StreamStep::Forward(plan) => {
            assert!(plan.backup);
            assert!(plan.tee);
            assert_eq!(
                plan.sends,
                vec![
                    SendKind::ToAddress,
                    SendKind::ToAddress,
                    SendKind::Preconnected,
                    SendKind::ToAddress,
                ]
            );
        }
        other => panic!("expected a forward plan, got {:?}", other),
    }
}

#[test]
fn blank_line_scenario_forwards_only_payload_chunks() {
    let targets = vec![v4(127, 0, 0, 1, 9910)];
    let reads: Vec<Vec<u8>> = vec![b"a".to_vec(), b"\n".to_vec(), b"b".to_vec()];
    let mut backed_up: Vec<u8> = Vec::new();
    let mut sent: Vec<Vec<u8>> = Vec::new();
    for chunk in &reads {
        match stream_step(chunk, &targets, false, true) {
            StreamStep::Stop => break,
            StreamStep::Skip => continue,
            StreamStep::Forward(plan) => {
                if plan.backup {
                    backed_up.extend_from_slice(chunk);
                }
                sent.push(chunk.clone());
            }
        }
    }
    assert_eq!(sent, vec![b"a".to_vec(), b"b".to_vec()]);
    assert_eq!(backed_up, b"ab".to_vec());
}

#[test]
fn chunk_size_limit_matches_buffer() {
    assert_eq!(MAX_CHUNK_SIZE, 8096);
}

#[test]
fn backup_name_of_epoch() {
    assert_eq!(backup_file_name(0), Some(b"1970-01-01.log".to_vec()));
}

#[test]
fn backup_name_of_known_days() {
    assert_eq!(backup_file_name(1704067200), Some(b"2024-01-01.log".to_vec()));
    assert_eq!(backup_file_name(1704067199), Some(b"2023-12-31.log".to_vec()));
    assert_eq!(backup_file_name(Y2020 + 59 * 86400), Some(b"2020-02-29.log".to_vec()));
    assert_eq!(backup_file_name(253402300799), Some(b"9999-12-31.log".to_vec()));
    assert_eq!(backup_file_name(-1), Some(b"1969-12-31.log".to_vec()));
}

#[test]
fn file_name_components_are_zero_padded() {
    assert_eq!(format_log_file_name(2024, 1, 5), b"2024-01-05.log".to_vec());
    assert_eq!(format_log_file_name(7, 11, 30), b"0007-11-30.log".to_vec());
    assert_eq!(format_log_file_name(0, 10, 1), b"0000-10-01.log".to_vec());
}

#[test]
fn date_prefix_parses_exactly_ten_bytes() {
    assert_eq!(
        parse_date_prefix(&b"2020-01-01.log".to_vec()),
        Some(BackupDate { year: 2020, month: 1, day: 1 })
    );
    assert_eq!(
        parse_date_prefix(&b"9999-12-31-anything".to_vec()),
        Some(BackupDate { year: 9999, month: 12, day: 31 })
    );
    assert_eq!(parse_date_prefix(&b"2020-1-1.log".to_vec()), None);
    assert_eq!(parse_date_prefix(&b"20200101xx.log".to_vec()), None);
    assert_eq!(parse_date_prefix(&b"a.log".to_vec()), None);
}

#[test]
fn log_suffix_is_required() {
    assert!(ends_with_log(&b"2020-01-01.log".to_vec()));
    assert!(!ends_with_log(&b"2020-01-01.txt".to_vec()));
    assert!(!ends_with_log(&b"2020-01-01".to_vec()));
    assert!(!ends_with_log(&b"log".to_vec()));
}

#[test]
fn retention_deletes_strictly_older_files_only() {
    let name = b"2020-01-01.log".to_vec();
    let now: i64 = Y2020 + 3 * 86400;
    assert!(should_delete_backup(&name, now, 2));
    assert!(!should_delete_backup(&name, now, 3));
    assert!(!should_delete_backup(&name, now, 4));
}

#[test]
fn retention_ignores_unparsable_entries() {
    let now: i64 = Y2020 + 365 * 86400;
    assert!(!should_delete_backup(&b"notadate00.log".to_vec(), now, 1));
    assert!(!should_delete_backup(&b"2019-13-01.log".to_vec(), now, 1));
    assert!(!should_delete_backup(&b"2019-02-30.log".to_vec(), now, 1));
    assert!(!should_delete_backup(&b"2019-01-01.txt".to_vec(), now, 1));
    assert!(!should_delete_backup(&b"a.log".to_vec(), now, 1));
    assert!(!should_delete_backup(&b"2019-01-01".to_vec(), now, 1));
}

#[test]
fn retention_handles_leap_days() {
    let far_later: i64 = Y2020 + 400 * 86400;
    assert!(should_delete_backup(&b"2020-02-29.log".to_vec(), far_later, 1));
    assert!(!should_delete_backup(&b"2021-02-29.log".to_vec(), far_later, 1));
}

#[test]
fn retention_reads_only_name_prefix_and_suffix() {
    let now: i64 = Y2020 + 30 * 86400;
    assert!(should_delete_backup(&b"2020-01-01-rotated.log".to_vec(), now, 7));
}

#[test]
fn retention_survives_huge_windows() {
    let name = b"2020-01-01.log".to_vec();
    assert!(!should_delete_backup(&name, Y2020, u64::MAX));
}

#[test]
fn fresh_backup_file_is_retained() {
    let now: i64 = Y2020 + 12345;
    let name = backup_file_name(now).expect("a name for the current date");
    assert!(!should_delete_backup(&name, now, 1));
    assert!(!should_delete_backup(&name, now, 365));
    assert!(should_delete_backup(&name, now + 3 * 86400, 2));
}

#[test]
fn sweep_flags_each_entry_independently() {
    let now: i64 = Y2020 + 10 * 86400;
    let entries = vec![
        b"2020-01-01.log".to_vec(),
        b"2020-01-09.log".to_vec(),
        b"ignore.me".to_vec(),
        b"2019-12-25.log".to_vec(),
    ];
    let flags = sweep_expired_backups(&entries, now, 5);
    assert_eq!(flags, vec![true, false, false, true]);
}
