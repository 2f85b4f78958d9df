use cmt::manifest::{parse_manifest, ManifestError};

#[test]
fn full_manifest() {
    let text = "\
# container build manifest
name = \"web\"
entrypoint = \"echo started\"

[image]
distro = \"alpine\"
release = \"3.19\"
arch = \"amd64\"
dir = \"/srv/web\"
network = \"br0\"

[[copy]]
host = \"/data/app\"
container = \"/srv/app\"
archive = true

[[copy]]
host = \"/data/etc\"
container = \"/etc/app\"
follow_link = true

[[shared]]
host = \"/data\"
container = \"/mnt/data\"

[[run]]
cmd = \"apk add curl\"

[limits]
cpuset_cpus = \"0,3\"
memory_limit_in_bytes = \"2G\"
";
    let m = parse_manifest(text).unwrap();
    assert_eq!(m.name, "web");
    assert_eq!(m.image.distro, "alpine");
    assert_eq!(m.image.release, "3.19");
    assert_eq!(m.image.arch, "amd64");
    assert_eq!(m.dir.as_deref(), Some("/srv/web"));
    assert_eq!(m.network.as_deref(), Some("br0"));
    assert!(m.config.is_none());
    assert_eq!(m.entrypoint.as_deref(), Some("echo started"));
    assert_eq!(m.copies.len(), 2);
    assert_eq!(m.copies[0].host, "/data/app");
    assert_eq!(m.copies[0].container, "/srv/app");
    assert!(m.copies[0].archive);
    assert!(!m.copies[0].follow_link);
    assert_eq!(m.copies[1].host, "/data/etc");
    assert!(!m.copies[1].archive);
    assert!(m.copies[1].follow_link);
    assert_eq!(m.shared.len(), 1);
    assert_eq!(m.shared[0].host, "/data");
    assert_eq!(m.shared[0].container, "/mnt/data");
    assert_eq!(m.runs.len(), 1);
    assert_eq!(m.runs[0].cmd, "apk add curl");
    // Limit entries keep the file's declared order.
    assert_eq!(m.limits.len(), 2);
    assert_eq!(m.limits[0].key, "cpuset_cpus");
    assert_eq!(m.limits[0].value, "0,3");
    assert_eq!(m.limits[1].key, "memory_limit_in_bytes");
    assert_eq!(m.limits[1].value, "2G");
}

#[test]
fn optional_sections_default_to_empty() {
    let text = "name = \"box\"\n[image]\ndistro = \"alpine\"\nrelease = \"3.19\"\narch = \"amd64\"\n";
    let m = parse_manifest(text).unwrap();
    assert!(m.copies.is_empty());
    assert!(m.shared.is_empty());
    assert!(m.runs.is_empty());
    assert!(m.limits.is_empty());
    assert!(m.entrypoint.is_none());
    assert!(m.config.is_none());
    assert!(m.dir.is_none());
    assert!(m.network.is_none());
}

#[test]
fn missing_name() {
    let text = "[image]\ndistro = \"alpine\"\nrelease = \"3.19\"\narch = \"amd64\"\n";
    assert_eq!(parse_manifest(text).unwrap_err(), ManifestError::MissingName);
    let empty = "name = \"\"\n[image]\ndistro = \"a\"\nrelease = \"b\"\narch = \"c\"\n";
    assert_eq!(parse_manifest(empty).unwrap_err(), ManifestError::MissingName);
}

#[test]
fn missing_image_fields() {
    assert_eq!(
        parse_manifest("name = \"x\"\n").unwrap_err(),
        ManifestError::MissingImageDistro
    );
    assert_eq!(
        parse_manifest("name = \"x\"\n[image]\ndistro = \"a\"\n").unwrap_err(),
        ManifestError::MissingImageRelease
    );
    assert_eq!(
        parse_manifest("name = \"x\"\n[image]\ndistro = \"a\"\nrelease = \"b\"\n").unwrap_err(),
        ManifestError::MissingImageArch
    );
}

#[test]
fn malformed_line() {
    let text = "name = \"x\"\nwhat is this\n";
    assert_eq!(parse_manifest(text).unwrap_err(), ManifestError::MalformedLine(1));
    let unclosed = "name = \"unclosed\n";
    assert_eq!(parse_manifest(unclosed).unwrap_err(), ManifestError::MalformedLine(0));
}

#[test]
fn non_boolean_copy_flag_is_malformed() {
    let text = "name = \"x\"\n[[copy]]\nhost = \"/a\"\ncontainer = \"/b\"\narchive = \"yes\"\n";
    assert_eq!(parse_manifest(text).unwrap_err(), ManifestError::MalformedLine(4));
}

#[test]
fn non_scalar_value() {
    let text = "name = \"x\"\nports = [80, 443]\n";
    assert_eq!(parse_manifest(text).unwrap_err(), ManifestError::NonScalarValue(1));
}

#[test]
fn incomplete_copy_entry() {
    let text = "name = \"x\"\n[image]\ndistro = \"a\"\nrelease = \"b\"\narch = \"c\"\n\
[[copy]]\nhost = \"/a\"\ncontainer = \"/b\"\n[[copy]]\nhost = \"/only\"\n";
    assert_eq!(parse_manifest(text).unwrap_err(), ManifestError::IncompleteCopyEntry(1));
}

#[test]
fn incomplete_shared_entry() {
    let text = "name = \"x\"\n[image]\ndistro = \"a\"\nrelease = \"b\"\narch = \"c\"\n\
[[shared]]\ncontainer = \"/mnt\"\n";
    assert_eq!(parse_manifest(text).unwrap_err(), ManifestError::IncompleteSharedEntry(0));
}

#[test]
fn incomplete_run_entry() {
    let text = "name = \"x\"\n[image]\ndistro = \"a\"\nrelease = \"b\"\narch = \"c\"\n[[run]]\n";
    assert_eq!(parse_manifest(text).unwrap_err(), ManifestError::IncompleteRunEntry(0));
}

#[test]
fn unknown_keys_and_sections_are_ignored() {
    let text = "name = \"x\"\nauthor = \"nobody\"\n[image]\ndistro = \"a\"\nrelease = \"b\"\n\
arch = \"c\"\nflavor = \"minimal\"\n[meta]\nversion = 3\n";
    let m = parse_manifest(text).unwrap();
    assert_eq!(m.name, "x");
    assert_eq!(m.image.arch, "c");
}

#[test]
fn bare_scalars_and_booleans_read_as_text() {
    let text = "name = box\n[image]\ndistro = alpine\nrelease = 3\narch = true\n";
    let m = parse_manifest(text).unwrap();
    assert_eq!(m.name, "box");
    assert_eq!(m.image.distro, "alpine");
    assert_eq!(m.image.release, "3");
    assert_eq!(m.image.arch, "true");
}

#[test]
fn last_value_wins() {
    let text = "name = \"a\"\nname = \"b\"\n[image]\ndistro = \"d\"\nrelease = \"r\"\narch = \"x\"\n";
    assert_eq!(parse_manifest(text).unwrap().name, "b");
}

#[test]
fn crlf_lines_are_accepted() {
    let text = "name = \"x\"\r\n[image]\r\ndistro = \"a\"\r\nrelease = \"b\"\r\narch = \"c\"\r\n";
    let m = parse_manifest(text).unwrap();
    assert_eq!(m.image.release, "b");
}
