use pc_landing_page::systemctl::sys_unit::SysUnit;
use pc_landing_page::systemctl::unit::{AutoStartStatus, Doc, State, Type};

const STATUS: &str = "\u{25CF} sshd.service - OpenSSH Daemon\n\
     Loaded: loaded (/usr/lib/systemd/system/sshd.service; enabled; preset: enabled)\n\
     Active: active (running) since Mon 2024-01-01 00:00:00 UTC\n\
       Docs: man:sshd(8)\n\
             https://www.openssh.com\n\
   Main PID: 787 (sshd)\n\
      Tasks: 1\n\
     Memory: 4.2M\n\
        CPU: 51ms\n";

const CAT: &str = "[Unit]\n\
Description=OpenSSH Daemon\n\
After=network.target\n\
Wants=sshd-keygen.target\n\
\n\
[Service]\n\
ExecStart=/usr/sbin/sshd -D\n\
Restart=on-failure\n\
KillMode=process\n";

#[test]
fn test_status_parse_full() {
    let u = SysUnit::from_status_output("sshd.service", STATUS, Some(CAT), true).unwrap();
    assert_eq!(u.full_name, "sshd.service");
    assert_eq!(u.name, "sshd");
    assert_eq!(u.utype, Type::Service);
    assert_eq!(u.description.as_deref(), Some("OpenSSH Daemon"));
    assert_eq!(u.state, State::Loaded);
    assert_eq!(u.auto_start, AutoStartStatus::Enabled);
    assert!(u.preset);
    assert_eq!(u.script, "/usr/lib/systemd/system/sshd.service");
    assert!(u.active);
    assert_eq!(u.pid, Some(787));
    assert_eq!(u.process.as_deref(), Some("sshd"));
    assert_eq!(u.memory.as_deref(), Some("4.2M"));
    assert_eq!(u.cpu.as_deref(), Some("51ms"));
    assert!(!u.transient);
    assert_eq!(u.tasks, None);

    let docs = u.docs.as_ref().unwrap();
    assert_eq!(docs.len(), 2);
    assert!(matches!(&docs[0], Doc::Man(page) if page == "sshd"));
    assert!(matches!(&docs[1], Doc::Url(url) if url == "https://www.openssh.com"));

    assert_eq!(u.after.as_deref(), Some(&["network.target".to_string()][..]));
    assert_eq!(u.wants.as_deref(), Some(&["sshd-keygen.target".to_string()][..]));
    assert_eq!(u.exec_start.as_deref(), Some("/usr/sbin/sshd -D"));
    assert_eq!(u.restart_policy.as_deref(), Some("on-failure"));
    assert_eq!(u.kill_mode.as_deref(), Some("process"));
    assert_eq!(u.wanted_by, None);
    assert_eq!(u.also, None);
    assert_eq!(u.before, None);
    assert_eq!(u.exec_reload, None);
}

#[test]
fn test_status_parse_without_cat() {
    let u = SysUnit::from_status_output("sshd.service", STATUS, None, false).unwrap();
    assert_eq!(u.name, "sshd");
    assert!(!u.active);
    assert_eq!(u.wants, None);
    assert_eq!(u.exec_start, None);
}

#[test]
fn test_status_parse_masked_unit() {
    let status = "\u{25CF} foo.timer - a timer\n     Loaded: masked (Reason: Unit is masked.)\n";
    let u = SysUnit::from_status_output("foo.timer", status, None, false).unwrap();
    assert_eq!(u.utype, Type::Timer);
    assert_eq!(u.state, State::Masked);
}

#[test]
fn test_status_parse_transient_and_mount() {
    let status = "\u{25CF} data.mount - data\n\
     Transient: yes\n\
     What: /dev/sda1\n\
     Where: /data\n";
    let u = SysUnit::from_status_output("data.mount", status, None, false).unwrap();
    assert_eq!(u.utype, Type::Mount);
    assert!(u.transient);
    assert_eq!(u.mounted.as_deref(), Some("/dev/sda1"));
    assert_eq!(u.mountpoint.as_deref(), Some("/data"));
}

#[test]
fn test_status_parse_bad_pid_reads_zero() {
    let status = "\u{25CF} gpm.service - gpm\n   Main PID: garbage (gpm)\n";
    let u = SysUnit::from_status_output("gpm.service", status, None, false).unwrap();
    assert_eq!(u.pid, Some(0));
    assert_eq!(u.process.as_deref(), Some("gpm"));
}

#[test]
fn test_status_parse_rejects_malformed() {
    // no output at all
    assert!(SysUnit::from_status_output("x.service", "", None, false).is_none());
    // header without a unit name
    assert!(SysUnit::from_status_output("x.service", "\u{25CF} \n", None, false).is_none());
    // unit name without a type extension
    assert!(SysUnit::from_status_output("x", "\u{25CF} x - desc\n", None, false).is_none());
    // unknown type extension
    assert!(SysUnit::from_status_output("x.bogus", "\u{25CF} x.bogus\n", None, false).is_none());
    // load-state line without its parenthesized body
    assert!(
        SysUnit::from_status_output(
            "x.service",
            "\u{25CF} x.service\n     Loaded: loaded broken\n",
            None,
            false
        )
        .is_none()
    );
}
