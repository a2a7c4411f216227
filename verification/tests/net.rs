//! Links, ports and addresses.

use oas::config::Config;
use oas::net::cni::{
    cidr_prefix, host_veth_plan, host_veth_setup_cmds, host_veth_teardown_cmds, veth_names,
};
use oas::net::forward::{
    guest_egress_cmds, guest_port_forward_cmds, host_egress_cmds, GuestEgress, GuestPortForward,
    HostEgress,
};
use oas::net::setup::{
    guest_cidr, teardown, torn_down, NetManager, OnFailure, RunFailure, SetupAction, StepKind,
};
use oas::net::NetError;
use oas::store::StoreError;
use oas::types::IpLease;

#[test]
fn plan_assigns_pod_ip_and_route() {
    let plan = host_veth_plan(
        "sb1",
        "oas-sb1",
        "10.42.0.17",
        "10.42.0.0/24",
        "eth0",
        "10.42.0.254",
    )
    .unwrap();
    let commands = host_veth_setup_cmds(&plan);
    let flat: Vec<_> = commands.iter().flatten().map(String::as_str).collect();
    assert!(flat.contains(&"10.42.0.17/24"));
    assert!(flat.contains(&"eth0"));
    assert!(commands
        .iter()
        .any(|cmd| cmd.windows(2).any(|pair| pair == ["route", "replace"])));
}

#[test]
fn names_are_short_stable_and_distinct() {
    let first = veth_names("sandbox-42");
    assert_eq!(first, veth_names("sandbox-42"));
    assert!(first.0.len() <= 15 && first.1.len() <= 15);
    assert_ne!(first.0, first.1);
}

#[test]
fn forwards_guest_agent_port() {
    let commands = guest_port_forward_cmds(&GuestPortForward {
        pod_ip: "10.42.0.17".to_string(),
        guest_ip: "172.16.0.2".to_string(),
        port: 10000,
    });
    assert!(commands[0]
        .windows(2)
        .any(|pair| pair == ["--to-destination", "172.16.0.2:10000"]));
    assert!(commands[1].contains(&"MASQUERADE".to_string()));
}

#[test]
fn prefixes_of_blocks() {
    assert_eq!(cidr_prefix("10.0.0.0/24"), Ok(24));
    assert!(cidr_prefix("10.0.0.0").is_err());
    assert!(cidr_prefix("10.0.0.0/x").is_err());
    assert!(host_veth_plan("a", "b", "c", "10.0.0.0", "e", "f").is_err());
    assert_eq!(host_veth_teardown_cmds("h", "1.2.3.4").len(), 2);
    assert_eq!(host_veth_teardown_cmds("h", "1.2.3.4")[0], vec!["route", "del", "1.2.3.4"]);
}

#[test]
fn ways_out() {
    let g = guest_egress_cmds(&GuestEgress {
        guest_cidr: "172.16.0.0/30".to_string(),
        tap_name: "tap0".to_string(),
    });
    assert!(g.iter().flatten().any(|w| w == "172.16.0.0/30"));
    let h = host_egress_cmds(&HostEgress { pod_cidr: "10.42.0.0/24".to_string() });
    assert!(h[0].contains(&"10.42.0.0/24".to_string()));
    assert_eq!(h[0].last().unwrap(), "MASQUERADE");
    assert_eq!(guest_cidr("172.16.0.1", 30), "172.16.0.0/30");
    assert_eq!(guest_cidr("172.16.0.7", 30), "172.16.0.4/30");
    assert_eq!(guest_cidr("172.16.0.1", 24), "172.16.0.1/24");
}

fn lease() -> IpLease {
    IpLease {
        ip: "10.42.0.17".to_string(),
        cidr: "10.42.0.0/24".to_string(),
        sandbox_id: String::new(),
    }
}

#[test]
fn a_network_is_set_up_step_by_step() {
    let mut cfg = Config::default();
    cfg.net.enable_host_veth = true;
    let m = NetManager::new(cfg);
    let mut op = m.setup("sb1", Ok(lease()));
    let mut steps = 0;
    let net = loop {
        match op.next(None) {
            SetupAction::Run(_) => steps += 1,
            SetupAction::Release(_) => panic!("nothing to release"),
            SetupAction::Finish(r) => break r.unwrap(),
        }
    };
    assert!(steps > 3);
    assert_eq!(net.pod_ip, "10.42.0.17");
    assert_eq!(net.lease.sandbox_id, "sb1");
    assert_eq!(net.netns_path, "/var/run/netns/oas-sb1");
    assert!(!net.host_veth.is_empty());
    assert!(!teardown(&net).is_empty());
}

fn with_link() -> Config {
    let mut cfg = Config::default();
    cfg.net.enable_host_veth = true;
    cfg
}

#[test]
fn a_link_that_fails_is_undone_and_gives_the_address_back() {
    let m = NetManager::new(with_link());
    let mut op = m.setup("sb1", Ok(lease()));
    let mut released = 0;
    let mut undone = Vec::new();
    let mut failed = false;
    let mut failure = None;
    let result = loop {
        match op.next(failure.take()) {
            SetupAction::Run(s) => {
                if failed {
                    undone.push(s.args.clone());
                } else if s.on_failure == OnFailure::Undo {
                    failed = true;
                    failure = Some(RunFailure::Exit("no".to_string()));
                }
            }
            SetupAction::Release(l) => {
                assert_eq!(l.ip, "10.42.0.17");
                released += 1;
            }
            SetupAction::Finish(r) => break r,
        }
    };
    assert!(failed);
    assert_eq!(released, 1);
    assert_eq!(undone.last().unwrap(), &vec!["netns", "del", "oas-sb1"]);
    assert!(result.unwrap_err().message().ends_with(" failed: no"));
}

#[test]
fn another_step_that_fails_ends_the_setup() {
    let m = NetManager::new(Config::default());
    let mut op = m.setup("sb1", Ok(lease()));
    assert!(matches!(op.next(None), SetupAction::Run(_)));
    match op.next(Some(RunFailure::Exit("ignored".to_string()))) {
        SetupAction::Run(s) => assert_eq!(s.on_failure, OnFailure::Stop),
        other => panic!("{other:?}"),
    }
    match op.next(Some(RunFailure::NotRun("gone".to_string()))) {
        SetupAction::Finish(Err(e)) => assert!(e
            .message()
            .contains("ip netns exec oas-sb1 ip tuntap add dev")),
        other => panic!("{other:?}"),
    }
}

#[test]
fn the_words_of_a_failed_rule_are_told_as_a_list() {
    let m = NetManager::new(Config::default());
    let mut op = m.setup("sb1", Ok(lease()));
    loop {
        match op.next(None) {
            SetupAction::Run(s) => {
                if s.kind == StepKind::NetnsIptables {
                    let e = s.error(&RunFailure::Exit("gone".to_string())).message();
                    assert!(
                        e.ends_with(&format!("netns iptables {:?} failed: gone", s.args)),
                        "{e}"
                    );
                    let words = s.words();
                    assert_eq!(words[..6], ["netns", "exec", "oas-sb1", "iptables", "-w", "5"]);
                    return;
                }
            }
            _ => panic!("no such step"),
        }
    }
}

#[test]
fn an_address_that_cannot_be_had_or_given_back() {
    let m = NetManager::new(Config::default());
    let mut op = m.setup("sb1", Err(StoreError::Db("ipam exhausted: x".to_string())));
    match op.next(None) {
        SetupAction::Finish(Err(_)) => {}
        other => panic!("{other:?}"),
    }
    assert!(torn_down(Ok(())).is_ok());
    assert!(matches!(
        torn_down(Err(StoreError::Db("x".to_string()))),
        Err(NetError::Other(_))
    ));
}
