use smog::strutil::i64_to_string;
use smog::strutil::path_join;
use smog::strutil::split_components;
use smog::strutil::str_ends_with;
use smog::strutil::str_eq;
use smog::strutil::u64_to_string;

#[test]
fn test_u64_to_string() {
    assert_eq!(u64_to_string(0), "0");
    assert_eq!(u64_to_string(7), "7");
    assert_eq!(u64_to_string(100000), "100000");
    assert_eq!(u64_to_string(1234567890), "1234567890");
    assert_eq!(u64_to_string(u64::MAX), "18446744073709551615");
}

#[test]
fn test_i64_to_string() {
    assert_eq!(i64_to_string(0), "0");
    assert_eq!(i64_to_string(50000), "50000");
    assert_eq!(i64_to_string(-1), "-1");
    assert_eq!(i64_to_string(i64::MIN), "-9223372036854775808");
    assert_eq!(i64_to_string(i64::MAX), "9223372036854775807");
}

#[test]
fn test_path_join() {
    assert_eq!(path_join("/var/run/smog", "abc"), "/var/run/smog/abc");
    assert_eq!(path_join("/sys/fs/cgroup", "/smog/abc"), "/sys/fs/cgroup/smog/abc");
    assert_eq!(path_join("a", "b/c"), "a/b/c");
}

#[test]
fn test_split_components() {
    assert_eq!(split_components("smog/abc"), vec!["smog".to_string(), "abc".to_string()]);
    assert_eq!(split_components("/a//b/"), vec!["a".to_string(), "b".to_string()]);
    assert_eq!(split_components(""), Vec::<String>::new());
    assert_eq!(split_components("///"), Vec::<String>::new());
    assert_eq!(split_components("one"), vec!["one".to_string()]);
}

#[test]
fn test_str_ends_with() {
    assert!(str_ends_with("/sys/fs/cgroup/cpu,cpuacct", "cpu,cpuacct"));
    assert!(str_ends_with("cpu", "cpu"));
    assert!(!str_ends_with("cp", "cpu"));
    assert!(!str_ends_with("/sys/fs/cgroup/net_cls", "net_prio"));
    assert!(str_ends_with("anything", ""));
}

#[test]
fn test_str_eq() {
    assert!(str_eq("ready", "ready"));
    assert!(!str_eq("ready", "read"));
    assert!(!str_eq("", "x"));
    assert!(str_eq("", ""));
}
