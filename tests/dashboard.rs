use connection_tools::app::{down_select_counter, up_select_counter, App, SelectedType};
use connection_tools::errors::ConnectionToolsError;
use connection_tools::socket::{
    split_sockets, IpAddress, ProtocolSocketInfo, SocketInfo, TcpSocketInfo, TcpState,
    UdpSocketInfo,
};
use connection_tools::text::{push_addr, push_decimal, tcp_socket_to_string, udp_socket_to_string};

fn tcp(
    local: (u8, u8, u8, u8),
    local_port: u16,
    remote: (u8, u8, u8, u8),
    remote_port: u16,
    state: TcpState,
    pids: Vec<u32>,
) -> SocketInfo {
    SocketInfo {
        protocol_socket_info: ProtocolSocketInfo::Tcp(TcpSocketInfo {
            local_addr: IpAddress::V4(local.0, local.1, local.2, local.3),
            local_port,
            remote_addr: IpAddress::V4(remote.0, remote.1, remote.2, remote.3),
            remote_port,
            state,
        }),
        associated_pids: pids,
    }
}

fn udp(local: (u8, u8, u8, u8), local_port: u16, pids: Vec<u32>) -> SocketInfo {
    SocketInfo {
        protocol_socket_info: ProtocolSocketInfo::Udp(UdpSocketInfo {
            local_addr: IpAddress::V4(local.0, local.1, local.2, local.3),
            local_port,
        }),
        associated_pids: pids,
    }
}

fn sample() -> Vec<SocketInfo> {
    vec![
        tcp((127, 0, 0, 1), 80, (0, 0, 0, 0), 0, TcpState::Listen, vec![1]),
        udp((0, 0, 0, 0), 53, vec![]),
        tcp(
            (10, 0, 0, 1),
            443,
            (203, 0, 113, 5),
            55000,
            TcpState::Established,
            vec![2, 3],
        ),
    ]
}

fn tcp_rows(n: u16) -> Vec<SocketInfo> {
    let mut v = Vec::new();
    for i in 0..n {
        v.push(tcp((127, 0, 0, 1), 8000 + i, (0, 0, 0, 0), 0, TcpState::Listen, vec![]));
    }
    v
}

#[test]
fn string_representation() {
    let sockets_info_failure = ConnectionToolsError::FailToGetSocketsInfo {
        message: "xxxx".to_owned(),
    };
    let result_string = sockets_info_failure.to_string();
    assert_eq!(result_string, "fail to get sockets info: xxxx");
}

#[test]
fn end_to_end_snapshot() {
    let mut app = App::new();
    app.update_sockets(Ok(sample()));
    assert_eq!(app.tcp_sockets_count, 2);
    assert_eq!(app.udp_sockets_count, 1);
    assert_eq!(app.tcp_sockets.len(), 2);
    assert_eq!(app.udp_sockets.len(), 1);
    assert_eq!(
        app.tcp_sockets[0],
        "local[127.0.0.1:80] -> remote[0.0.0.0:0]; pids[1]; state: LISTEN"
    );
    assert_eq!(
        app.tcp_sockets[1],
        "local[10.0.0.1:443] -> remote[203.0.113.5:55000]; pids[2, 3]; state: ESTABLISHED"
    );
    assert_eq!(app.udp_sockets[0], "local[0.0.0.0:53] -> *:*; pids[]");
}

#[test]
fn split_keeps_every_record_in_order() {
    let c = split_sockets(sample());
    assert_eq!(c.tcp_sockets.len() + c.udp_sockets.len(), 3);
    assert_eq!(c.tcp_sockets.len(), 2);
    assert_eq!(c.tcp_sockets[0].0.local_port, 80);
    assert_eq!(c.tcp_sockets[0].1, vec![1]);
    assert_eq!(c.tcp_sockets[1].0.local_port, 443);
    assert_eq!(c.tcp_sockets[1].1, vec![2, 3]);
    assert_eq!(c.udp_sockets[0].0.local_port, 53);
    assert!(c.udp_sockets[0].1.is_empty());
}

#[test]
fn split_keeps_duplicates() {
    let v = vec![udp((0, 0, 0, 0), 53, vec![7]), udp((0, 0, 0, 0), 53, vec![7])];
    let c = split_sockets(v);
    assert_eq!(c.udp_sockets.len(), 2);
    assert_eq!(c.tcp_sockets.len(), 0);
    assert_eq!(c.udp_sockets[0], c.udp_sockets[1]);
}

#[test]
fn split_of_nothing_is_empty() {
    let c = split_sockets(Vec::new());
    assert!(c.tcp_sockets.is_empty());
    assert!(c.udp_sockets.is_empty());
}

#[test]
fn focus_right_saturates_at_udp() {
    let mut app = App::new();
    app.on_right();
    assert_eq!(app.selected_type, SelectedType::Tcp);
    app.on_right();
    assert_eq!(app.selected_type, SelectedType::Udp);
    app.on_right();
    assert_eq!(app.selected_type, SelectedType::Udp);
}

#[test]
fn focus_left_saturates_at_nothing() {
    assert_eq!(SelectedType::Nothing.left(), SelectedType::Nothing);
    assert_eq!(SelectedType::Udp.right(), SelectedType::Udp);
    assert_eq!(SelectedType::Nothing.right().left(), SelectedType::Nothing);
    let mut app = App::new();
    app.on_left();
    assert_eq!(app.selected_type, SelectedType::Nothing);
}

#[test]
fn down_wraps_after_last_row() {
    let mut app = App::new();
    app.update_sockets(Ok(tcp_rows(3)));
    app.on_right();
    let mut seen = Vec::new();
    for _ in 0..4 {
        app.on_down();
        seen.push(app.selected_tcp());
    }
    assert_eq!(seen, vec![Some(0), Some(1), Some(2), Some(0)]);
}

#[test]
fn up_wraps_from_first_row() {
    let mut app = App::new();
    app.update_sockets(Ok(tcp_rows(3)));
    app.on_right();
    app.on_up();
    assert_eq!(app.selected_tcp(), Some(0));
    app.on_up();
    assert_eq!(app.selected_tcp(), Some(2));
    app.on_up();
    assert_eq!(app.selected_tcp(), Some(1));
}

#[test]
fn n_steps_return_to_start() {
    for start in 0..5usize {
        let mut down = Some(start);
        let mut up = Some(start);
        for _ in 0..5 {
            down = down_select_counter(&down, &5);
            up = up_select_counter(&up, &5);
        }
        assert_eq!(down, Some(start));
        assert_eq!(up, Some(start));
    }
}

#[test]
fn counters_on_empty_list_do_not_move() {
    assert_eq!(up_select_counter(&None, &0), None);
    assert_eq!(down_select_counter(&None, &0), None);
    assert_eq!(up_select_counter(&Some(4), &0), Some(4));
    assert_eq!(down_select_counter(&Some(4), &0), Some(4));
}

#[test]
fn navigation_on_empty_focused_list_is_safe() {
    let mut app = App::new();
    app.on_right();
    app.on_up();
    app.on_down();
    assert_eq!(app.selected_tcp(), None);
    app.on_right();
    app.on_down();
    app.on_up();
    assert_eq!(app.selected_udp(), None);
}

#[test]
fn stale_cursor_down_wraps_to_first() {
    assert_eq!(down_select_counter(&Some(9), &3), Some(0));
    assert_eq!(up_select_counter(&Some(9), &3), Some(8));
}

#[test]
fn only_focused_cursor_is_exposed() {
    let mut app = App::new();
    app.update_sockets(Ok(sample()));
    app.on_right();
    app.on_down();
    app.on_down();
    assert_eq!(app.selected_tcp(), Some(1));
    assert_eq!(app.selected_udp(), None);
    app.on_right();
    assert_eq!(app.selected_tcp(), None);
    assert_eq!(app.selected_udp(), None);
    app.on_down();
    assert_eq!(app.selected_udp(), Some(0));
    app.on_left();
    assert_eq!(app.selected_tcp(), Some(1));
    assert_eq!(app.selected_udp(), None);
    app.on_left();
    assert_eq!(app.selected_tcp(), None);
}

#[test]
fn failed_refresh_clears_lists_and_keeps_cursors() {
    let mut app = App::new();
    app.update_sockets(Ok(sample()));
    app.on_right();
    app.on_down();
    app.on_down();
    app.update_sockets(Err("permission denied".to_owned()));
    assert!(app.tcp_sockets.is_empty());
    assert!(app.udp_sockets.is_empty());
    assert_eq!(app.tcp_sockets_count, 0);
    assert_eq!(app.udp_sockets_count, 0);
    assert_eq!(app.selected_tcp(), Some(1));
    match &app.sockets_info_res {
        Err(e) => assert_eq!(e.to_string(), "fail to get sockets info: permission denied"),
        Ok(_) => panic!("refresh should have failed"),
    }
    assert_eq!(app.selected_pids(), None);
    assert_eq!(app.selected_socket_info(&vec![]), "fail to get sockets info");
    app.on_tick(Ok(sample()));
    assert_eq!(app.tcp_sockets_count, 2);
    assert_eq!(app.selected_tcp(), Some(1));
}

#[test]
fn quit_key_sets_flag() {
    let mut app = App::new();
    app.on_key('x');
    assert!(!app.should_quit);
    app.on_key('q');
    assert!(app.should_quit);
}

#[test]
fn socket_info_without_focus_is_a_prompt() {
    let mut app = App::new();
    app.update_sockets(Ok(sample()));
    assert_eq!(app.selected_pids(), None);
    assert_eq!(
        app.selected_socket_info(&vec![]),
        "choose socket with arrow keys"
    );
}

#[test]
fn socket_info_joins_details_with_placeholder() {
    let mut app = App::new();
    app.update_sockets(Ok(sample()));
    app.on_right();
    assert_eq!(app.selected_pids(), Some(vec![1]));
    app.on_down();
    app.on_down();
    assert_eq!(app.selected_pids(), Some(vec![2, 3]));
    let details = vec![Some("pid 2\n".to_owned()), None];
    assert_eq!(
        app.selected_socket_info(&details),
        "pid 2\nprocess info not available"
    );
}

#[test]
fn socket_info_clamps_stale_cursor() {
    let mut app = App::new();
    app.update_sockets(Ok(tcp_rows(3)));
    app.on_right();
    app.on_up();
    app.on_up();
    assert_eq!(app.selected_tcp(), Some(2));
    app.update_sockets(Ok(sample()));
    assert_eq!(app.selected_tcp(), Some(2));
    assert_eq!(app.selected_pids(), Some(vec![2, 3]));
}

#[test]
fn socket_info_on_empty_list() {
    let mut app = App::new();
    app.on_right();
    app.on_right();
    assert_eq!(app.selected_pids(), None);
    assert_eq!(app.selected_socket_info(&vec![]), "no sockets to choose from");
}

#[test]
fn udp_selection_resolves_owners() {
    let mut app = App::new();
    let mut v = sample();
    v.push(udp((192, 168, 1, 2), 5353, vec![42]));
    app.update_sockets(Ok(v));
    app.on_right();
    app.on_right();
    app.on_up();
    app.on_up();
    assert_eq!(app.selected_udp(), Some(1));
    assert_eq!(app.selected_pids(), Some(vec![42]));
    assert_eq!(app.udp_sockets[1], "local[192.168.1.2:5353] -> *:*; pids[42]");
}

#[test]
fn decimal_extremes() {
    let mut s = String::new();
    push_decimal(&mut s, 0);
    s.push(' ');
    push_decimal(&mut s, 4294967295);
    assert_eq!(s, "0 4294967295");
    let t = TcpSocketInfo {
        local_addr: IpAddress::V4(255, 255, 255, 255),
        local_port: 65535,
        remote_addr: IpAddress::V4(1, 2, 3, 4),
        remote_port: 1,
        state: TcpState::TimeWait,
    };
    assert_eq!(
        tcp_socket_to_string(&t, &vec![4294967295]),
        "local[255.255.255.255:65535] -> remote[1.2.3.4:1]; pids[4294967295]; state: TIME_WAIT"
    );
}

#[test]
fn ipv6_addresses_use_standard_text() {
    let mut s = String::new();
    push_addr(&mut s, IpAddress::V6(1));
    assert_eq!(s, "::1");
    let u = UdpSocketInfo { local_addr: IpAddress::V6(0), local_port: 5353 };
    assert_eq!(udp_socket_to_string(&u, &vec![10, 20]), "local[:::5353] -> *:*; pids[10, 20]");
    let t = TcpSocketInfo {
        local_addr: IpAddress::V6(0x2001_0db8_0000_0000_0000_0000_0000_0001),
        local_port: 22,
        remote_addr: IpAddress::V6(0),
        remote_port: 0,
        state: TcpState::SynReceived,
    };
    assert_eq!(
        tcp_socket_to_string(&t, &vec![]),
        "local[2001:db8::1:22] -> remote[:::0]; pids[]; state: SYN_RCVD"
    );
}

#[test]
fn state_names() {
    let names = [
        (TcpState::Closed, "CLOSED"),
        (TcpState::SynSent, "SYN_SENT"),
        (TcpState::FinWait1, "FIN_WAIT_1"),
        (TcpState::FinWait2, "FIN_WAIT_2"),
        (TcpState::CloseWait, "CLOSE_WAIT"),
        (TcpState::Closing, "CLOSING"),
        (TcpState::LastAck, "LAST_ACK"),
        (TcpState::DeleteTcb, "DELETE_TCB"),
        (TcpState::Unknown, "__UNKNOWN"),
    ];
    for (st, name) in names {
        let t = TcpSocketInfo {
            local_addr: IpAddress::V4(0, 0, 0, 0),
            local_port: 0,
            remote_addr: IpAddress::V4(0, 0, 0, 0),
            remote_port: 0,
            state: st,
        };
        let expected = format!("local[0.0.0.0:0] -> remote[0.0.0.0:0]; pids[]; state: {}", name);
        assert_eq!(tcp_socket_to_string(&t, &vec![]), expected);
    }
}
