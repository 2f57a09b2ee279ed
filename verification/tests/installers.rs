use playmaster::linux::utils::installer::common::{
    add_bin_to_path, add_line_to_bashrc, AnyInstaller, BashrcEdit, Installer,
};
use playmaster::linux::utils::installer::file::FileInstaller;
use playmaster::linux::utils::installer::package::PackageInstaller;
use playmaster::linux::utils::os::OsUtils as LinuxOsUtils;
use playmaster::models::app_state::{AppState, CommandOutput, RemoteInfo};
use playmaster::models::config::{Config, ProjectType};
use playmaster::utils::command::CommandCheck;
use playmaster::utils::os::{InstallType, OsUtils};

fn check(command: &str, failure: &str) -> CommandCheck {
    CommandCheck { command: command.to_string(), failure: failure.to_string() }
}

fn state(remote: bool, ostree: bool) -> AppState {
    let mut s = AppState::new();
    s.root_dir = "/home/dev/pm".to_string();
    s.sudo_password = "secret".to_string();
    s.os_info.is_ostree = ostree;
    if remote {
        s.remote = Some(RemoteInfo {
            user: "u".to_string(),
            host: "h".to_string(),
            port: 22,
            password: "p".to_string(),
        });
    }
    s
}

#[test]
fn installer_is_chosen_by_type() {
    assert_eq!(<dyn Installer>::from_type(InstallType::File).get_type(), InstallType::File);
    assert_eq!(<dyn Installer>::from_type(InstallType::Package).get_type(), InstallType::Package);
    assert_eq!(<dyn Installer>::from_type(InstallType::File), AnyInstaller::File(FileInstaller));
}

#[test]
fn packages_are_installed_with_the_package_manager() {
    let p = PackageInstaller;
    assert_eq!(p.get_base_install_cmd(false, "htop", "secret"), "echo 'secret' | sudo -S dnf install -y htop");
    assert_eq!(
        p.get_base_install_cmd(true, "htop", "secret"),
        "distrobox create --name dev --image fedora:41 --yes || true && distrobox enter --name dev -- sudo dnf install -y htop"
    );
    assert_eq!(
        p.install_package("htop", false, "secret", true),
        check("echo 'secret' | sudo -S dnf install -y htop", "remote installation of 'htop' failed")
    );
    assert_eq!(p.add_alias_post_install("htop", false, false), None);
    assert_eq!(
        p.add_alias_post_install("/tmp/tool-1.2.3.x86_64.rpm", true, false),
        Some(check(
            "distrobox enter --name dev -- distrobox-export --bin /usr/bin/tool-1",
            "local export of 'tool-1' failed"
        ))
    );
    assert_eq!(p.add_local_bin_to_bashrc_path(false, true), None);
    assert_eq!(
        p.add_local_bin_to_bashrc_path(true, true),
        Some(check(
            "grep -qxF 'export PATH=\"$HOME/.local/bin:$PATH\"' ~/.bashrc || echo 'export PATH=\"$HOME/.local/bin:$PATH\"' >> ~/.bashrc",
            "remote adding ~/.local/bin to PATH failed"
        ))
    );
}

#[test]
fn package_plan_depends_on_the_kind_of_system() {
    let p = PackageInstaller;
    assert_eq!(
        p.run(&state(false, false), "htop"),
        Ok(vec![check("echo 'secret' | sudo -S dnf install -y htop", "local installation of 'htop' failed")])
    );
    let on_ostree = p.run(&state(true, true), "dir/htop.rpm").unwrap();
    assert_eq!(on_ostree.len(), 3);
    assert_eq!(on_ostree[0].failure, "remote installation of 'dir/htop.rpm' failed");
    assert_eq!(on_ostree[1].command, "distrobox enter --name dev -- distrobox-export --bin /usr/bin/htop");
    assert_eq!(on_ostree[2].failure, "remote adding ~/.local/bin to PATH failed");
}

#[test]
fn archives_are_unpacked_into_the_working_directory() {
    let f = FileInstaller;
    assert_eq!(
        f.get_base_install_cmd("/tmp/a.tar.xz", "/r"),
        Ok("mkdir -p /r && tar -xJvf /tmp/a.tar.xz -C /r".to_string())
    );
    assert_eq!(
        f.get_base_install_cmd("/tmp/a.tar.gz", "/r"),
        Ok("mkdir -p /r && tar -xvzf /tmp/a.tar.gz -C /r".to_string())
    );
    assert_eq!(
        f.get_base_install_cmd("/tmp/a.zip", "/r"),
        Ok("mkdir -p /r && unzip -v -o /tmp/a.zip -d /r".to_string())
    );
    assert_eq!(f.get_base_install_cmd("/tmp/a.ZIP", "/r"), Err("Unsupported archive type: /tmp/a.ZIP".to_string()));
    assert_eq!(
        f.install_file("/tmp/a.zip", true, "/r"),
        Ok(vec![check("mkdir -p /r && unzip -v -o /tmp/a.zip -d /r", "remote extraction of '/tmp/a.zip' failed")])
    );
    assert_eq!(
        f.install_file("/tmp/a.bin", false, "/r"),
        Err("Unknown file type for installation: '/tmp/a.bin'".to_string())
    );
    assert_eq!(f.install_file("/tmp/a.ZIP", false, "/r"), Err("Unsupported archive type: /tmp/a.ZIP".to_string()));
    assert_eq!(
        f.install_archive("/tmp/a.tar.gz", false, "/r"),
        Ok(vec![check("mkdir -p /r && tar -xvzf /tmp/a.tar.gz -C /r", "local extraction of '/tmp/a.tar.gz' failed")])
    );
}

#[test]
fn package_files_go_to_the_package_installer() {
    let f = FileInstaller;
    assert_eq!(
        f.run(&state(false, false), "/tmp/tool.rpm"),
        Ok(vec![check(
            "echo 'secret' | sudo -S dnf install -y /tmp/tool.rpm",
            "local installation of '/tmp/tool.rpm' failed"
        )])
    );
    assert_eq!(
        OsUtils::install(InstallType::File, &state(false, false), "/tmp/t.zip"),
        Ok(vec![check(
            "mkdir -p /home/dev/pm && unzip -v -o /tmp/t.zip -d /home/dev/pm",
            "local extraction of '/tmp/t.zip' failed"
        )])
    );
    assert_eq!(
        LinuxOsUtils::install_package(InstallType::Package, &state(true, false), "git"),
        Ok(vec![check("echo 'secret' | sudo -S dnf install -y git", "remote installation of 'git' failed")])
    );
}

#[test]
fn lines_are_added_to_the_start_up_file() {
    assert_eq!(
        add_line_to_bashrc("export A=1", false, "/r"),
        BashrcEdit::Local { file_path: "/r/.bashrc".to_string(), line: "export A=1".to_string() }
    );
    assert_eq!(
        add_bin_to_path("/opt/bin", true, "/r"),
        BashrcEdit::Remote {
            check: check(
                "grep -Fxq \"export PATH=\"/opt/bin:\\\\$PATH\"\" /r/.bashrc || echo \"export PATH=\"/opt/bin:\\\\$PATH\"\" >> /r/.bashrc",
                "Failed to add line remotely"
            ),
        }
    );
    assert_eq!(OsUtils::add_bin("/b", false, "/r"), LinuxOsUtils::add_bin("/b", false, "/r"));
    assert_eq!(
        OsUtils::add_line_to_bashrc("x", true, "/r"),
        LinuxOsUtils::add_line_to_bashrc("x", true, "/r")
    );
    assert_eq!(BashrcEdit::local_append("a\nexport A=1\n", "export A=1"), None);
    assert_eq!(BashrcEdit::local_append("a\n", "export A=1"), Some("export A=1\n".to_string()));
    assert_eq!(BashrcEdit::local_append("", "x"), Some("x\n".to_string()));
}

#[test]
fn system_facts_are_read_from_what_was_found() {
    let probe = |s: &str| CommandOutput { stdout: s.to_string(), stderr: String::new(), status: 0 };
    assert!(LinuxOsUtils::is_fedora_silverblue(&probe("true\r\n")));
    assert!(!LinuxOsUtils::is_fedora_silverblue(&probe("false\n")));
    assert!(!LinuxOsUtils::is_fedora_silverblue(&probe("")));
    let mut s = state(false, false);
    OsUtils::setup_state(&mut s, true);
    assert!(s.os_info.is_ostree);
    OsUtils::setup_state(&mut s, false);
    assert!(s.os_info.is_ostree);
    assert_eq!(OsUtils::get_display(Some(":3".to_string())), ":3");
    assert_eq!(OsUtils::get_display(None), ":0");
    assert_eq!(OsUtils::detect_arch(Some("aarch64\n".to_string())), "aarch64");
    assert_eq!(OsUtils::detect_arch(None), "x86_64");
    let mode = OsUtils::set_file_permissions("/tmp/x.sh");
    assert_eq!((mode.path.as_str(), mode.mode), ("/tmp/x.sh", 0o755));
    assert_eq!(
        OsUtils::write_temp_script("Ab12Cd34", "echo hi\n"),
        (
            "Ab12Cd34.sh".to_string(),
            "#!/usr/bin/env bash\nset -Eeuo pipefail\n# Uncomment for debug tracing\n# set -x\n\necho hi\n".to_string()
        )
    );
}

#[test]
fn flutter_is_a_default_dependency() {
    let mut c = Config::new(ProjectType::Flutter);
    assert!(!c.has_dependency("flutter"));
    c.load_default_configs();
    assert_eq!(c.dependencies.len(), 1);
    assert!(c.has_dependency("flutter"));
    let dep = &c.dependencies[0];
    assert_eq!(dep.min_version, "3.29.2");
    assert_eq!(dep.version_command, "flutter --version | head -n 1 | awk '{print $2}'");
    let install = dep.install.as_ref().unwrap();
    assert_eq!(install.bin_path, Some("flutter/bin".to_string()));
    assert_eq!(install.setup, Some("flutter --version || true".to_string()));
    c.add_flutter_defaults();
    assert_eq!(c.dependencies.len(), 1);
}
