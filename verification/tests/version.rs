use contower::version::{version_string, version_with_platform};

#[test]
fn version_string_appends_platform() {
    assert_eq!(
        version_string("ConTower/v0.1.0-67da032*", "x86_64", "linux"),
        "ConTower/v0.1.0-67da032*/x86_64-linux"
    );
}

#[test]
fn version_with_platform_uses_build_target() {
    let v = version_with_platform("ConTower/v0.1.0-");
    assert!(v.starts_with("ConTower/v0.1.0-/"));
    let platform = &v["ConTower/v0.1.0-/".len()..];
    let (arch, os) = platform.split_once('-').unwrap();
    let archs = ["x86", "x86_64", "mips", "powerpc", "arm", "aarch64", "unknown"];
    let oses = [
        "windows", "macos", "ios", "linux", "android", "freebsd", "dragonfly", "bitrig",
        "openbsd", "netbsd", "unknown",
    ];
    assert!(archs.contains(&arch), "{}", arch);
    assert!(oses.contains(&os), "{}", os);
    assert_eq!(platform, format!("{}-{}", target_info::Target::arch(), target_info::Target::os()));
}
