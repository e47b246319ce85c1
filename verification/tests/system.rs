use globalprotect::system::{
    backend_compatible, backend_install_script, backend_installed, detect, failure_reason, flatpak_runtime,
    host_install_kind, install_failure, install_kind_str, install_note, install_options, kind_from_str, kind_label,
    openable_url, os_pretty_name, os_release_get, os_release_path, parse_version, release_url, run_mode, safe_version,
    self_update_script, update_available, InstallKind,
};
use globalprotect::version::{same_feature_version, version_cmp, version_parts};
use std::cmp::Ordering;

const BASE: &str = "https://github.com/techneut92/GlobalProtect-openconnect-dw/releases/download/v1.2.3";

#[test]
fn install_kind_names_round_trip() {
    for k in [
        InstallKind::Flatpak,
        InstallKind::RpmOstree,
        InstallKind::Dnf,
        InstallKind::Apt,
        InstallKind::Pacman,
        InstallKind::Apk,
        InstallKind::Zypper,
        InstallKind::Unknown,
    ] {
        assert_eq!(kind_from_str(install_kind_str(k)), k);
    }
    assert_eq!(kind_from_str("rpm-ostree"), InstallKind::RpmOstree);
    assert_eq!(kind_from_str("yum"), InstallKind::Unknown);
    assert_eq!(kind_label(InstallKind::Apt), "Debian / Ubuntu (apt)");
    assert_eq!(kind_label(InstallKind::Unknown), "Other");
    assert_eq!(install_note(InstallKind::RpmOstree), "Layered packages take effect after the next reboot.");
    assert_eq!(
        install_note(InstallKind::Dnf),
        "The helper service is enabled and started automatically once installed."
    );
}

#[test]
fn version_strings_safe_for_shell() {
    assert!(safe_version("1.2.3"));
    assert!(safe_version("2.0.0-rc1+build_7~x"));
    assert!(!safe_version(""));
    assert!(!safe_version("1.2.3; rm -rf /"));
    assert!(!safe_version("1.2'3"));
    assert!(!safe_version(&"1".repeat(65)));
    assert!(safe_version(&"1".repeat(64)));
}

#[test]
fn backend_install_scripts() {
    assert_eq!(
        backend_install_script(InstallKind::Dnf, "1.2.3", "x86_64").unwrap(),
        format!("dnf install -y '{BASE}/globalprotect-openconnect-dw-1.2.3-1.x86_64.rpm'")
    );
    assert_eq!(
        backend_install_script(InstallKind::Apt, "1.2.3", "aarch64").unwrap(),
        format!(
            "cd \"$(mktemp -d)\" && curl -fLO '{BASE}/globalprotect-openconnect-dw_1.2.3-1_arm64.deb' && apt-get install -y './globalprotect-openconnect-dw_1.2.3-1_arm64.deb'"
        )
    );
    assert_eq!(
        backend_install_script(InstallKind::Pacman, "1.2.3", "x86_64").unwrap(),
        format!("pacman -U --noconfirm '{BASE}/globalprotect-openconnect-dw-1.2.3-1-x86_64.pkg.tar.zst'")
    );
    assert_eq!(
        backend_install_script(InstallKind::RpmOstree, "1.2.3", "x86_64").unwrap(),
        format!(
            "cd \"$(mktemp -d)\" && curl -fLO '{BASE}/globalprotect-openconnect-dw-1.2.3-1.x86_64.rpm' && (rpm-ostree uninstall -y globalprotect-openconnect-dw >/dev/null 2>&1 || true) && rpm-ostree install -y './globalprotect-openconnect-dw-1.2.3-1.x86_64.rpm'"
        )
    );
    assert_eq!(
        backend_install_script(InstallKind::Apk, "1.2.3", "x86_64").unwrap(),
        format!(
            "cd \"$(mktemp -d)\" && curl -fLO '{BASE}/globalprotect-openconnect-dw-1.2.3-r1-x86_64.apk' && apk add --allow-untrusted './globalprotect-openconnect-dw-1.2.3-r1-x86_64.apk'"
        )
    );
    assert_eq!(
        backend_install_script(InstallKind::Zypper, "1.2.3", "x86_64").unwrap(),
        format!("zypper install -y '{BASE}/globalprotect-openconnect-dw-1.2.3-1.x86_64.rpm'")
    );
    assert_eq!(backend_install_script(InstallKind::Flatpak, "1.2.3", "x86_64"), None);
    assert_eq!(backend_install_script(InstallKind::Unknown, "1.2.3", "x86_64"), None);
    assert_eq!(backend_install_script(InstallKind::Dnf, "1.2.3'; reboot; '", "x86_64"), None);
}

#[test]
fn manual_install_options() {
    let opts = install_options("1.2.3", "x86_64");
    let kinds: Vec<&str> = opts.iter().map(|o| o.kind.as_str()).collect();
    assert_eq!(kinds, vec!["rpm-ostree", "dnf", "apt", "pacman", "zypper", "apk"]);
    assert_eq!(opts[0].label, "Atomic / image-based (rpm-ostree)");
    assert_eq!(opts[0].steps.len(), 3);
    assert_eq!(opts[0].steps[0].label, "Download the package");
    assert_eq!(opts[0].steps[0].cmd, format!("curl -LO {BASE}/globalprotect-openconnect-dw-1.2.3-1.x86_64.rpm"));
    assert_eq!(opts[0].steps[1].cmd, "sudo rpm-ostree install ./globalprotect-openconnect-dw-1.2.3-1.x86_64.rpm");
    assert_eq!(opts[0].steps[2].cmd, "systemctl reboot");
    assert_eq!(opts[2].steps[1].cmd, "sudo apt install ./globalprotect-openconnect-dw_1.2.3-1_amd64.deb");
    assert_eq!(opts[5].steps[1].cmd, "sudo apk add --allow-untrusted ./globalprotect-openconnect-dw-1.2.3-r1-x86_64.apk");
}

const FEDORA: &str = "NAME=\"Fedora Linux\"\nID=fedora\nPRETTY_NAME=\"Fedora Linux 40 (Workstation Edition)\"\n";
const MINT: &str = "NAME=\"Linux Mint\"\nID=linuxmint\nID_LIKE=\"ubuntu debian\"\n";

#[test]
fn os_release_values() {
    assert_eq!(os_release_get(FEDORA, "ID").as_deref(), Some("fedora"));
    assert_eq!(os_release_get(" A = \"x\" \nA=y\n", "A").as_deref(), Some("y"));
    assert_eq!(os_release_get(FEDORA, "VERSION"), None);
    assert_eq!(os_pretty_name(Some(FEDORA)), "Fedora Linux 40 (Workstation Edition)");
    assert_eq!(os_pretty_name(Some(MINT)), "Linux");
    assert_eq!(os_pretty_name(None), "Linux");
    assert_eq!(os_release_path(true, true), "/run/host/os-release");
    assert_eq!(os_release_path(true, false), "/etc/os-release");
    assert_eq!(os_release_path(false, true), "/etc/os-release");
}

#[test]
fn detects_the_package_manager() {
    assert_eq!(detect(true, true, FEDORA), InstallKind::Flatpak);
    assert_eq!(detect(false, true, FEDORA), InstallKind::RpmOstree);
    assert_eq!(detect(false, false, FEDORA), InstallKind::Dnf);
    assert_eq!(detect(false, false, MINT), InstallKind::Apt);
    assert_eq!(detect(false, false, "ID=arch\n"), InstallKind::Pacman);
    assert_eq!(detect(false, false, "ID=alpine\n"), InstallKind::Apk);
    assert_eq!(detect(false, false, "ID=\"opensuse-tumbleweed\"\nID_LIKE=\"opensuse suse\"\n"), InstallKind::Zypper);
    assert_eq!(detect(false, false, "ID=nixos\n"), InstallKind::Unknown);
    assert_eq!(detect(false, false, ""), InstallKind::Unknown);
    assert_eq!(host_install_kind(Some("  apt\n")), InstallKind::Apt);
    assert_eq!(host_install_kind(None), InstallKind::Unknown);
    assert!(backend_installed(true, true, false));
    assert!(!backend_installed(false, true, false));
}

#[test]
fn how_the_binary_runs() {
    assert_eq!(run_mode(Some("flatpak"), false, None), "Flatpak");
    assert_eq!(run_mode(Some("native"), true, None), "Native package");
    assert_eq!(run_mode(Some("source"), false, None), "Source build");
    assert_eq!(run_mode(Some("custom"), false, None), "custom");
    assert_eq!(run_mode(Some(""), true, None), "Flatpak");
    assert_eq!(run_mode(None, false, Some("/home/u/gp/target/debug/gpgui")), "Source build");
    assert_eq!(run_mode(None, false, Some("/usr/bin/gpgui")), "Native package");
    assert_eq!(run_mode(None, false, Some("/app/bin/gpgui")), "Flatpak");
    assert_eq!(run_mode(None, false, Some("/opt/gpgui")), "Unknown");
    assert_eq!(run_mode(None, false, None), "Unknown");
}

#[test]
fn version_output_parsing() {
    assert_eq!(parse_version("gpservice 2.4.1 (2025-01-01)").as_deref(), Some("2.4.1"));
    assert_eq!(parse_version("gpservice 1.2.3, build x").as_deref(), Some("1.2.3"));
    assert_eq!(parse_version("v1.2.3 only"), None);
    assert_eq!(parse_version("version 7 2.0"), Some("2.0".to_string()));
    assert_eq!(parse_version(""), None);
}

#[test]
fn flatpak_runtimes() {
    let info = "[Application]\nname=io.github.techneut92.gpgui\nruntime=runtime/org.gnome.Platform/x86_64/50\n";
    assert_eq!(flatpak_runtime(info).as_deref(), Some("GNOME Platform 50"));
    assert_eq!(flatpak_runtime("runtime=org.kde.Platform/x86_64/").as_deref(), Some("KDE Platform"));
    assert_eq!(flatpak_runtime("runtime=com.example.Base").as_deref(), Some("com.example.Base"));
    assert_eq!(flatpak_runtime("[Application]\n"), None);
}

#[test]
fn installer_failures() {
    assert_eq!(failure_reason("warning: x\n  Error: boom  \n\n", "Install failed."), "Error: boom");
    assert_eq!(failure_reason("", "Install failed."), "Install failed.");
    let long = "x".repeat(200);
    assert_eq!(failure_reason(&long, "d").len(), 160);
    assert_eq!(install_failure(Some(126), "whatever"), "Authentication was cancelled.");
    assert_eq!(install_failure(Some(127), ""), "Authentication was cancelled.");
    assert_eq!(install_failure(Some(1), "E: locked\n"), "E: locked");
    assert_eq!(install_failure(None, ""), "Install failed.");
}

#[test]
fn self_update() {
    assert_eq!(
        self_update_script("1.2.3").unwrap(),
        format!(
            "f=$(mktemp --suffix=.flatpak) && curl -fL -o \"$f\" '{BASE}/io.github.techneut92.gpgui.flatpak' && flatpak install --user --reinstall --assumeyes \"$f\"; r=$?; rm -f \"$f\"; exit $r"
        )
    );
    assert_eq!(self_update_script("$(id)"), None);
}

#[test]
fn updates_and_compatibility() {
    assert!(update_available("1.3.0", "1.2.9"));
    assert!(!update_available("1.2.9", "1.2.9"));
    assert!(!update_available("1.2", "1.2.0"));
    assert!(backend_compatible(Some("1.2.0"), "v1.2"));
    assert!(!backend_compatible(Some("1.2.1"), "1.2"));
    assert!(backend_compatible(None, "1.2"));
    assert_eq!(release_url(""), "https://github.com/techneut92/GlobalProtect-openconnect-dw/releases");
    assert_eq!(release_url("https://x/y"), "https://x/y");
    assert!(openable_url("https://example.com"));
    assert!(openable_url("http://example.com"));
    assert!(!openable_url("file:///etc/passwd"));
}

#[test]
fn version_order() {
    assert_eq!(version_cmp("1.2.10", "1.2.9"), Ordering::Greater);
    assert_eq!(version_cmp("1.2.9", "1.2.10"), Ordering::Less);
    assert_eq!(version_cmp("v1.2", "1.2.0"), Ordering::Equal);
    assert_eq!(version_cmp("1.2.3-rc1", "1.2.3"), Ordering::Equal);
    assert_eq!(version_cmp("1.2.3-4", "1.2.3"), Ordering::Greater);
    assert_eq!(version_cmp("1.x.3", "1.0.3"), Ordering::Equal);
    assert_eq!(version_parts("v2.3-x"), vec![2, 3]);
    assert_eq!(version_parts("v1.2.3-foo"), vec![1, 2, 3]);
    assert_eq!(version_parts("1.x.3"), vec![1, 0, 3]);
    assert_eq!(version_parts("vv1.20abc.3"), vec![1, 20, 3]);
    assert!(same_feature_version("1.4.2", "v1.4.9"));
    assert!(!same_feature_version("1.4", "1.5"));
    assert!(same_feature_version("2", "2.0.7"));
}

#[test]
fn releases_from_the_api() {
    let r = globalprotect::system::release_from(Some("v1.4.0"), Some("https://x/r"), None);
    assert_eq!(r.version, "1.4.0");
    assert_eq!(r.url, "https://x/r");
    assert_eq!(r.notes, "");
    assert_eq!(globalprotect::system::release_from(None, None, Some("n")).version, "");
}
