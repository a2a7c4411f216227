//! Clocks, names, types, paths and text.

use oas::config::{
    copy_after_clone, copy_start, image_base_name, path_join, Config, CopyAction, CopyMethod,
};
use oas::manager::clock::{
    clock_seconds, clock_stamp, clock_timestamp, system_timestamp, Clock, FakeClock, SystemClock,
};
use oas::manager::id::IdGenerator;
use oas::manager::types_table::SandboxTypeTable;
use oas::manager::OasError;
use oas::strmap::StrMap;
use oas::text;
use std::collections::HashSet;

#[test]
fn fake_clock_advance_and_tick() {
    let mut c = FakeClock::new(100);
    assert_eq!(c.now_unix_secs(), 100);
    c.advance_to(200);
    assert_eq!(c.now_unix_secs(), 200);
    assert_eq!(c.tick(), 201);
    assert_eq!(c.now_unix_secs(), 201);
}

#[test]
fn system_clock_is_positive() {
    let c = SystemClock;
    assert!(c.now_unix_secs() > 1_700_000_000);
}

#[test]
fn times_out_of_nanoseconds() {
    assert_eq!(clock_seconds(Some(1_999_999_999)), 1);
    assert_eq!(clock_seconds(None), 0);
    assert_eq!(clock_stamp(Some(17)), 17);
    assert_eq!(clock_stamp(Some(u128::MAX)), i64::MAX);
    assert_eq!(clock_stamp(None), 1);
    assert_eq!(clock_timestamp(Some(1_999_999_998)), (1, 999_999_998));
    assert_eq!(clock_timestamp(None), (0, 0));
    assert!(system_timestamp().0 > 0);
}

#[test]
fn sandbox_ids_unique() {
    let mut g = IdGenerator::new();
    let set: HashSet<String> = (0..1000).map(|_| g.sandbox_id().0).collect();
    assert_eq!(set.len(), 1000);
    assert!(g.sandbox_id().as_str().starts_with("sb-"));
}

#[test]
fn container_ids_unique_and_prefixed() {
    let mut g = IdGenerator::new();
    let a = g.container_id();
    let b = g.container_id();
    assert_ne!(a, b);
    assert!(a.starts_with("ct-") && b.starts_with("ct-"));
    assert_eq!(a, "ct-0000000000000001");
}

#[test]
fn known_types() {
    let t = SandboxTypeTable::default();
    assert_eq!(t.get(0).unwrap().vcpu, 1);
    assert_eq!(t.get(0).unwrap().mem_mib, 512);
    assert!(!t.get(0).unwrap().has_rw_layer);
    assert!(!t.get(0).unwrap().has_cloud_disk);
    assert!(t.get(0).unwrap().image_whitelist.contains(&"img-a".to_string()));

    assert!(t.get(1).unwrap().has_rw_layer);
    assert!(!t.get(1).unwrap().has_cloud_disk);

    assert!(t.get(2).unwrap().has_rw_layer);
    assert!(t.get(2).unwrap().has_cloud_disk);
    assert_eq!(t.get(2).unwrap().vcpu, 4);
}

#[test]
fn unknown_type_rejected() {
    let t = SandboxTypeTable::default();
    assert!(matches!(t.get(3), Err(OasError::InvalidArgument(_))));
    assert!(matches!(t.get(255), Err(OasError::InvalidArgument(_))));
}

#[test]
fn all_images_flattens() {
    let t = SandboxTypeTable::default();
    let imgs = t.all_images();
    assert_eq!(imgs, vec!["img-a", "img-b", "img-c"]);
}

#[test]
fn places_of_a_sandbox() {
    let c = Config::load(None);
    let dir = c.sandbox_dir("sb1");
    assert!(dir.ends_with("/firecracker/sb1"));
    assert_eq!(c.jail_root("sb1"), format!("{dir}/root"));
    assert!(c.shim_socket("sb1").ends_with("/oas-shim-sb1.sock"));
    assert!(c.shim_log("sb1").ends_with("/oas-shim-sb1.log"));
    assert_eq!(c.netns_path("sb1"), "/var/run/netns/oas-sb1");
    assert_eq!(c.netns_name("sb1"), "oas-sb1");
    assert!(c.bundle_dir("b").ends_with("/snapshots/b"));
    assert_eq!(path_join("/a", "/b"), "/b");
    assert_eq!(path_join("/a/", "b"), "/a/b");
    assert_eq!(path_join("", "b"), "b");
}

#[test]
fn images_by_their_base_name() {
    assert_eq!(image_base_name("img-a"), "img-a");
    assert_eq!(image_base_name("reg.io/x/img-a:v1"), "img-a");
    assert_eq!(image_base_name("sha256:img-a"), "img-a");
    let c = Config::default();
    assert!(c.image_allowed_any("docker.io/library/img-b:latest"));
    assert!(!c.image_allowed_any("img-x"));
    assert!(c.get_type(0).unwrap().image_allowed("img-a:2"));
    assert!(!c.get_type(0).unwrap().image_allowed("img-b"));
    assert!(c.get_type(9).is_none());
}

#[test]
fn how_a_file_is_copied() {
    assert_eq!(copy_start(true), CopyAction::Clone);
    assert_eq!(copy_start(false), CopyAction::CopyBytes);
    assert_eq!(copy_after_clone(true, true), CopyAction::Done(CopyMethod::Reflink));
    assert_eq!(copy_after_clone(false, true), CopyAction::RemoveThenFail);
    assert_eq!(copy_after_clone(false, false), CopyAction::RemoveThenCopyBytes);
}

#[test]
fn numbers_and_text() {
    assert_eq!(text::dec_string(0), "0");
    assert_eq!(text::dec_string(u64::MAX), "18446744073709551615");
    assert_eq!(text::sdec_string(-5), "-5");
    assert_eq!(text::oct_string(0o750), "750");
    assert_eq!(text::hex_string(255, 4), "00ff");
    assert_eq!(text::parse_number("+12", 12), Some(12));
    assert_eq!(text::parse_number("13", 12), None);
    assert_eq!(text::parse_number("", 12), None);
    assert_eq!(text::parse_number("1x", 12), None);
    assert_eq!(text::trimmed(" \t a b\n"), "a b");
    assert_eq!(text::split_on("a,b,,c", ','), vec!["a", "b", "", "c"]);
    assert_eq!(text::lines_of("a\r\nb\nc"), vec!["a", "b", "c"]);
    assert_eq!(text::words_of("  a  b "), vec!["a", "b"]);
    assert_eq!(text::split_once("k=v=w", '='), Some(("k".to_string(), "v=w".to_string())));
    assert_eq!(text::strip_prefix_any_case("Content-Length: 5", "content-length:"), Some(" 5".to_string()));
    assert!(text::before("a", "ab"));
    assert!(text::before("Z", "a"));
    assert!(!text::before("b", "ab"));
    assert_eq!(text::joined(&vec!["a".to_string(), "b".to_string()], ", "), "a, b");
}

#[test]
fn maps_are_in_the_order_of_their_keys() {
    let mut m: StrMap<String> = StrMap::new();
    m.insert("b".to_string(), "2".to_string());
    m.insert("a".to_string(), "1".to_string());
    m.insert("b".to_string(), "3".to_string());
    assert_eq!(m.len(), 2);
    assert_eq!(m.key_at(0), "a");
    assert_eq!(m.value_at(1), "3");
    assert_eq!(m.remove("a"), Some("1".to_string()));
    assert_eq!(m.remove("a"), None);
    assert!(m.contains_key("b"));
    assert!(!m.is_empty());
}
