use cmt::resolver::{decompose_location, parse_rootfs_output, Location};

#[test]
fn instance_location_decomposes_at_first_colon() {
    match decompose_location("web:/srv/app") {
        Location::Instance { name, rel } => {
            assert_eq!(name, "web");
            assert_eq!(rel, "/srv/app");
        },
        _ => panic!("expected an instance location"),
    }
}

#[test]
fn bare_location_is_used_verbatim() {
    match decompose_location("/data/app") {
        Location::Bare(p) => assert_eq!(p, "/data/app"),
        _ => panic!("expected a bare location"),
    }
}

#[test]
fn later_colons_belong_to_the_relative_path() {
    match decompose_location("web:/srv:odd") {
        Location::Instance { name, rel } => {
            assert_eq!(name, "web");
            assert_eq!(rel, "/srv:odd");
        },
        _ => panic!("expected an instance location"),
    }
}

#[test]
fn rootfs_query_output_parses() {
    let out = "lxc.rootfs.path = /var/lib/lxc/web/rootfs\n";
    assert_eq!(parse_rootfs_output(out).as_deref(), Some("/var/lib/lxc/web/rootfs"));
}

#[test]
fn rootfs_query_output_keeps_backend_prefix() {
    let out = "lxc.rootfs.path = dir:/var/lib/lxc/web/rootfs";
    assert_eq!(parse_rootfs_output(out).as_deref(), Some("dir:/var/lib/lxc/web/rootfs"));
}

#[test]
fn unparseable_query_output_is_rejected() {
    assert!(parse_rootfs_output("").is_none());
    assert!(parse_rootfs_output("no equals sign here").is_none());
    assert!(parse_rootfs_output("lxc.rootfs.path = ").is_none());
    assert!(parse_rootfs_output("other.key = /value").is_none());
}
