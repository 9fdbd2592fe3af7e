use slowdns_installer::display::{Note, Span, Style};
use slowdns_installer::machine::{
    classify_command, Event, EventKind, ExitReport, FileText, Installer, Op, Stage, Step,
};
use slowdns_installer::menu::{mk_log_tail, parse_menu_option, MenuOption};
use slowdns_installer::preparation::{check_root_of, NOT_ROOT_MESSAGE};
use slowdns_installer::provision::make_validation_note;

fn spans_text(spans: &[Span]) -> String {
    spans.iter().map(|s| s.text.as_str()).collect::<Vec<_>>().join("")
}

fn note_text(n: &Note) -> String {
    match n {
        Note::ClearScreen => "<clear>".to_string(),
        Note::Line(v) | Note::Partial(v) | Note::ErrorLine(v) => spans_text(v),
        Note::Progress { message, millis } => format!("<progress {} {}>", message, millis),
        Note::Pause { seconds } => format!("<pause {}>", seconds),
    }
}

fn all_text(step: &Step) -> Vec<String> {
    step.notes.iter().map(note_text).collect()
}

fn ok_run(stdout: &str) -> Event {
    Event::Exited(Ok(ExitReport { success: true, stdout: stdout.as_bytes().to_vec(), stderr: Vec::new() }))
}

fn failed_run(stderr: &str) -> Event {
    Event::Exited(Ok(ExitReport { success: false, stdout: Vec::new(), stderr: stderr.as_bytes().to_vec() }))
}

fn done() -> Event {
    Event::Done(Ok(()))
}

fn command(op: &Op) -> String {
    match op {
        Op::Run { command } | Op::RunSilent { command } => command.clone(),
        other => panic!("not a command: {:?}", other),
    }
}

/// Feeds `e` after checking that the installer expects it.
fn feed(inst: &mut Installer, e: Event) -> Step {
    assert!(inst.accepts(&e), "stage {:?} does not take {:?}", inst.stage, e);
    inst.step(e)
}

/// An installer that has passed the root check and the nameserver question.
fn asked(ns: &str) -> (Installer, Step) {
    let mut inst = Installer::new();
    let s = feed(&mut inst, Event::Start);
    assert!(matches!(s.op, Op::CheckRoot));
    let s = feed(&mut inst, done());
    assert!(matches!(s.op, Op::AskNameserver { .. }));
    let s = feed(&mut inst, Event::Text(Ok(ns.to_string())));
    (inst, s)
}

/// The answer that a successful run of each operation gives.
fn success_for(op: &Op) -> Event {
    match op {
        Op::CheckRoot | Op::RunSilent { .. } | Op::RemoveFileIfExists { .. } | Op::CopyFile { .. }
        | Op::WriteFile { .. } | Op::RemoveDirIfExists { .. } | Op::CreateDirAll { .. }
        | Op::ChangeDir { .. } | Op::Download { .. } | Op::SetMode { .. } | Op::Flush
        | Op::RemoveFiles { .. } => done(),
        Op::AskNameserver { .. } => Event::Text(Ok("tunnel.example.com".to_string())),
        Op::Fetch { .. } => Event::Fetched(Some("203.0.113.7\n".to_string())),
        Op::Run { .. } => ok_run("Usage: dnstt-server\n"),
        Op::ReadText { .. } => Event::File(FileText::Content("PUBKEY123\nsecond\n".to_string())),
        Op::ReadLine => Event::Text(Ok("6\n".to_string())),
        Op::ReadClock => Event::Text(Ok("2024-01-02 03:04:05".to_string())),
        Op::Exit { .. } => panic!("nothing follows an exit"),
    }
}

#[test]
fn full_installation_succeeds_and_exits_zero() {
    let mut inst = Installer::new();
    let mut step = feed(&mut inst, Event::Start);
    let mut ops = Vec::new();
    let mut texts = Vec::new();
    let mut count = 0;
    loop {
        texts.extend(all_text(&step));
        if let Op::Exit { code } = step.op {
            assert_eq!(code, 0);
            break;
        }
        ops.push(format!("{:?}", step.op));
        let e = success_for(&step.op);
        step = feed(&mut inst, e);
        count += 1;
        assert!(count < 80, "the installer must finish within eighty steps");
    }
    assert_eq!(inst.stage, Stage::Finished);
    assert_eq!(inst.expects(), EventKind::Nothing);
    assert_eq!(inst.server_ip, "203.0.113.7");
    assert_eq!(inst.nameserver, "tunnel.example.com");
    // The steps in their order.
    let order = [
        "STEP 1: CONFIGURE OPENSSH",
        "STEP 2: SETUP SLOWDNS",
        "STEP 3: CREATE SLOWDNS SERVICE",
        "STEP 4: COMPILE EDNS PROXY",
        "STEP 5: CONFIGURE FIREWALL",
        "STEP 6: START SERVICES",
        "🎉 INSTALLATION COMPLETE",
        "POST-INSTALLATION OPTIONS",
    ];
    let mut last = 0;
    for title in order {
        let at = texts.iter().position(|t| t.contains(title)).expect(title);
        assert!(at >= last, "{} out of order", title);
        last = at;
    }
    assert!(texts.contains(&"  ✓ Server IP detected via ifconfig.me: 203.0.113.7".to_string()));
    assert!(texts.contains(&"  ✓ Binary validated successfully".to_string()));
    assert!(texts.contains(&"\r  ✓ All services are running".to_string()));
    assert!(texts.contains(&"PUBKEY123".to_string()));
    assert!(texts.contains(&"   Installation completed at: 2024-01-02 03:04:05".to_string()));
    assert!(texts.contains(&"   Server: 203.0.113.7 | SlowDNS: 5300 | EDNS: 53".to_string()));
    assert_eq!(texts.last().unwrap(), "Installation completed successfully!");
    // gcc was found, so it was not installed.
    assert!(!ops.iter().any(|o| o.contains("apt-get")));
    // The unit written for the service names the nameserver the user gave.
    assert!(ops.iter().any(|o| o.contains("server-sldns.service") && o.contains("tunnel.example.com 127.0.0.1:22")));
}

#[test]
fn root_check_failure_reports_and_exits_one() {
    let mut inst = Installer::new();
    feed(&mut inst, Event::Start);
    let s = feed(&mut inst, Event::Done(Err(NOT_ROOT_MESSAGE.to_string())));
    let texts = all_text(&s);
    assert_eq!(texts, vec!["✗ Installation failed: Please run this script as root".to_string()]);
    match &s.notes[0] {
        Note::ErrorLine(v) => {
            assert_eq!(v[0].style, Style::RedBold);
            assert_eq!(v[2].style, Style::Red);
        },
        other => panic!("expected an error line, got {:?}", other),
    }
    match s.op {
        Op::RemoveFiles { paths } => assert_eq!(paths, vec!["/tmp/edns.c", "/tmp/compile.log", "/var/log/slowdns-install.log"]),
        other => panic!("{:?}", other),
    }
    let s = feed(&mut inst, done());
    assert!(matches!(s.op, Op::Exit { code: 1 }));
    assert_eq!(inst.stage, Stage::Finished);
}

#[test]
fn root_check_of_user_ids() {
    assert!(check_root_of(0).is_ok());
    assert_eq!(check_root_of(1000), Err("Please run this script as root".to_string()));
}

#[test]
fn nameserver_prompt_offers_the_default() {
    let mut inst = Installer::new();
    feed(&mut inst, Event::Start);
    let s = feed(&mut inst, done());
    assert!(matches!(s.notes[0], Note::ClearScreen));
    let texts = all_text(&s);
    assert_eq!(texts[2], "  ℹ Enter nameserver configuration:");
    assert_eq!(texts[3], "Default: dns.example.com");
    match s.op {
        Op::AskNameserver { prompt, default } => {
            assert_eq!(prompt, "Enter nameserver");
            assert_eq!(default, "dns.example.com");
        },
        other => panic!("{:?}", other),
    }
}

#[test]
fn ip_from_second_source_after_a_blank_answer() {
    let (mut inst, s) = asked("ns.example.org");
    match &s.op {
        Op::Fetch { url } => assert_eq!(url, "https://ifconfig.me"),
        other => panic!("{:?}", other),
    }
    let s = feed(&mut inst, Event::Fetched(Some("  \n".to_string())));
    match &s.op {
        Op::Fetch { url } => assert_eq!(url, "https://ipinfo.io/ip"),
        other => panic!("{:?}", other),
    }
    let s = feed(&mut inst, Event::Fetched(Some(" 198.51.100.4\n".to_string())));
    assert_eq!(inst.server_ip, "198.51.100.4");
    assert_eq!(all_text(&s)[0], "  ✓ Server IP detected via ipinfo.io: 198.51.100.4");
    assert_eq!(inst.stage, Stage::SshRemoveBackup);
}

#[test]
fn ip_falls_back_to_local_address_then_loopback() {
    let (mut inst, _) = asked("ns.example.org");
    feed(&mut inst, Event::Fetched(None));
    feed(&mut inst, Event::Fetched(None));
    let s = feed(&mut inst, Event::Fetched(Some(String::new())));
    assert_eq!(command(&s.op), "hostname -I | awk '{print $1}'");
    let s = feed(&mut inst, ok_run("10.0.0.5 \n"));
    assert_eq!(inst.server_ip, "10.0.0.5");
    assert_eq!(all_text(&s)[0], "  ✓ Local IP: 10.0.0.5");

    let (mut inst, _) = asked("ns.example.org");
    feed(&mut inst, Event::Fetched(None));
    feed(&mut inst, Event::Fetched(None));
    feed(&mut inst, Event::Fetched(None));
    let s = feed(&mut inst, Event::Exited(Err("sh: not found".to_string())));
    assert_eq!(inst.server_ip, "127.0.0.1");
    assert_eq!(all_text(&s)[0], "  ! Could not detect IP, using 127.0.0.1");
}

/// Drives a fresh installer with successful answers until it waits at `stage`.
fn drive_to(stage: Stage) -> Installer {
    let mut inst = Installer::new();
    let mut step = feed(&mut inst, Event::Start);
    while inst.stage != stage {
        let e = success_for(&step.op);
        step = feed(&mut inst, e);
    }
    inst
}

#[test]
fn ssh_restart_failure_fails_the_installation() {
    let mut inst = drive_to(Stage::SshRestart);
    let s = feed(&mut inst, failed_run("unit sshd not found"));
    assert_eq!(all_text(&s), vec!["✗ Installation failed: Command failed: unit sshd not found".to_string()]);
    assert_eq!(inst.stage, Stage::FailedCleanup);
}

#[test]
fn io_error_fails_the_installation() {
    let mut inst = drive_to(Stage::SshBackup);
    let s = feed(&mut inst, Event::Done(Err("No such file or directory (os error 2)".to_string())));
    assert_eq!(all_text(&s), vec!["✗ Installation failed: No such file or directory (os error 2)".to_string()]);
}

#[test]
fn downloads_report_their_destination() {
    let mut inst = drive_to(Stage::DnsChangeDir);
    let s = feed(&mut inst, done());
    assert_eq!(
        all_text(&s)[1],
        "  ℹ Downloading: https://raw.githubusercontent.com/chiddy80/Halotel-Slow-DNS/main/DNSTT%20MODED/dnstt-server"
    );
    let s = feed(&mut inst, done());
    assert_eq!(all_text(&s)[0], "  ✓ Downloaded to: \"/etc/slowdns/dnstt-server\"");
    match s.op {
        Op::SetMode { path, mode } => {
            assert_eq!(path, "/etc/slowdns/dnstt-server");
            assert_eq!(mode, 0o755);
        },
        other => panic!("{:?}", other),
    }
}

#[test]
fn binary_validation_outcomes() {
    let texts = |r: Result<String, String>| note_text(&make_validation_note(&r));
    assert_eq!(texts(Ok("USAGE: dnstt-server".to_string())), "  ✓ Binary validated successfully");
    assert_eq!(texts(Ok("hello".to_string())), "  ! Binary test inconclusive");
    assert_eq!(texts(Err("boom".to_string())), "  ! Binary test failed, continuing anyway");
    assert_eq!(texts(Ok("Options:\n  USAGE follows".to_string())), "  ✓ Binary validated successfully");
    assert_eq!(texts(Ok("usag e".to_string())), "  ! Binary test inconclusive");
}

#[test]
fn compiler_is_installed_when_missing() {
    let mut inst = drive_to(Stage::EdnsFindCompiler);
    let s = feed(&mut inst, failed_run(""));
    assert_eq!(all_text(&s), vec!["  ℹ Installing gcc...".to_string()]);
    assert_eq!(command(&s.op), "apt-get update > /dev/null 2>&1");
    let s = feed(&mut inst, ok_run(""));
    assert_eq!(command(&s.op), "apt-get install -y gcc > /dev/null 2>&1");
    let s = feed(&mut inst, ok_run(""));
    assert_eq!(all_text(&s), vec!["  ✓ Compiler installed".to_string()]);
    match s.op {
        Op::WriteFile { path, .. } => assert_eq!(path, "/tmp/edns.c"),
        other => panic!("{:?}", other),
    }
}

#[test]
fn failed_compilation_is_reported_twice() {
    let mut inst = drive_to(Stage::EdnsCompile);
    let s = feed(&mut inst, failed_run("edns.c:1: error"));
    assert_eq!(
        all_text(&s),
        vec![
            "  ✗ Compilation failed: Command failed: edns.c:1: error".to_string(),
            "✗ Installation failed: Command failed: edns.c:1: error".to_string(),
        ]
    );
}

#[test]
fn firewall_failures_are_ignored() {
    let mut inst = drive_to(Stage::FirewallRule(0));
    let mut commands = Vec::new();
    for i in 0..17u8 {
        assert_eq!(inst.stage, Stage::FirewallRule(i));
        let s = feed(&mut inst, Event::Done(Err("spawn failed".to_string())));
        commands.push(command(&s.op));
    }
    assert_eq!(commands[15], "iptables -A INPUT -m state --state INVALID -j DROP");
    assert_eq!(commands[16], "echo 1 > /proc/sys/net/ipv6/conf/all/disable_ipv6");
    assert_eq!(inst.stage, Stage::FirewallIpv6);
}

#[test]
fn inactive_services_are_started_by_hand() {
    let mut inst = drive_to(Stage::SvcCheckSlowdns);
    let s = feed(&mut inst, failed_run("inactive"));
    assert_eq!(all_text(&s), vec!["  ! Starting SlowDNS in background".to_string()]);
    assert_eq!(
        command(&s.op),
        "/etc/slowdns/dnstt-server -udp :5300 -mtu 1800 -privkey-file /etc/slowdns/server.key tunnel.example.com 127.0.0.1:22 &"
    );
    let s = feed(&mut inst, done());
    assert_eq!(command(&s.op), "systemctl enable edns-proxy > /dev/null 2>&1");
    feed(&mut inst, done());
    feed(&mut inst, ok_run(""));
    let s = feed(&mut inst, failed_run("inactive"));
    assert_eq!(command(&s.op), "/usr/local/bin/edns-proxy &");
    let s = feed(&mut inst, Event::Done(Err("cannot spawn".to_string())));
    assert_eq!(all_text(&s), vec!["✗ Installation failed: cannot spawn".to_string()]);
}

#[test]
fn summary_checks_report_each_port() {
    let mut inst = drive_to(Stage::SumPort53);
    let s = feed(&mut inst, failed_run(""));
    assert_eq!(all_text(&s), vec!["\r  ! Port 53 not listening".to_string(), "  ℹ Checking port 5300...".to_string()]);
    let s = feed(&mut inst, done());
    assert_eq!(command(&s.op), "ss -ulpn 2>/dev/null | grep ':5300 '");
    let s = feed(&mut inst, ok_run(""));
    assert_eq!(all_text(&s)[0], "\r  ✓ Port 5300 (SlowDNS) is listening");
    feed(&mut inst, done());
    feed(&mut inst, failed_run(""));
    let s = feed(&mut inst, ok_run(""));
    assert_eq!(all_text(&s), vec!["\r  ! Some services need attention".to_string()]);
    let s = feed(&mut inst, Event::File(FileText::Missing));
    let texts = all_text(&s);
    assert!(!texts.iter().any(|t| t.contains("PUBLIC KEY")));
    assert_eq!(texts.last().unwrap(), "Select option [1-6]: ");
}

#[test]
fn menu_choices() {
    assert_eq!(parse_menu_option(" 3\n"), MenuOption::RestartServices);
    assert_eq!(parse_menu_option("1"), MenuOption::ServiceStatus);
    assert_eq!(parse_menu_option("6\r\n"), MenuOption::ExitToTerminal);
    assert_eq!(parse_menu_option("7"), MenuOption::Invalid);
    assert_eq!(parse_menu_option(""), MenuOption::Invalid);
    assert_eq!(parse_menu_option("1 2"), MenuOption::Invalid);
}

#[test]
fn menu_dns_test_prefers_dig_then_nslookup() {
    let mut inst = drive_to(Stage::MenuChoice);
    let s = feed(&mut inst, Event::Text(Ok("5\n".to_string())));
    assert_eq!(all_text(&s)[1], "Testing DNS query to tunnel.example.com...");
    let s = feed(&mut inst, failed_run(""));
    assert_eq!(command(&s.op), "which nslookup");
    let s = feed(&mut inst, ok_run("/usr/bin/nslookup"));
    assert_eq!(command(&s.op), "nslookup tunnel.example.com 203.0.113.7");
    let s = feed(&mut inst, failed_run(""));
    assert!(matches!(s.op, Op::RemoveFiles { .. }));

    let mut inst = drive_to(Stage::MenuChoice);
    feed(&mut inst, Event::Text(Ok("5".to_string())));
    let s = feed(&mut inst, ok_run("/usr/bin/dig"));
    assert_eq!(command(&s.op), "dig @203.0.113.7 tunnel.example.com +short");

    let mut inst = drive_to(Stage::MenuChoice);
    feed(&mut inst, Event::Text(Ok("5".to_string())));
    feed(&mut inst, failed_run(""));
    let s = feed(&mut inst, failed_run(""));
    assert_eq!(all_text(&s), vec!["DNS tools not available".to_string()]);
}

#[test]
fn menu_invalid_choice_finishes() {
    let mut inst = drive_to(Stage::MenuChoice);
    let s = feed(&mut inst, Event::Text(Ok("9".to_string())));
    assert_eq!(all_text(&s), vec!["\nInvalid option, returning to terminal...".to_string()]);
    assert_eq!(inst.stage, Stage::Cleanup);
}

#[test]
fn menu_log_shows_last_twenty_lines() {
    let mut inst = drive_to(Stage::MenuChoice);
    let s = feed(&mut inst, Event::Text(Ok("4".to_string())));
    match &s.op {
        Op::ReadText { path } => assert_eq!(path, "/var/log/slowdns-install.log"),
        other => panic!("{:?}", other),
    }
    let log: String = (1..=25).map(|i| format!("line {}\n", i)).collect();
    let s = feed(&mut inst, Event::File(FileText::Content(log)));
    let texts = all_text(&s);
    assert_eq!(texts.len(), 20);
    assert_eq!(texts[0], "line 6");
    assert_eq!(texts[19], "line 25");

    let mut inst = drive_to(Stage::MenuChoice);
    feed(&mut inst, Event::Text(Ok("4".to_string())));
    let s = feed(&mut inst, Event::File(FileText::Missing));
    assert_eq!(all_text(&s), vec!["Log file not found".to_string()]);
}

#[test]
fn log_tail_of_short_log_shows_everything() {
    let notes = mk_log_tail(vec!["a".to_string(), "b".to_string()]);
    assert_eq!(notes.iter().map(note_text).collect::<Vec<_>>(), vec!["a", "b"]);
    assert!(mk_log_tail(Vec::new()).is_empty());
}

#[test]
fn command_outcomes() {
    let ok = classify_command(Ok(ExitReport { success: true, stdout: b"out\n".to_vec(), stderr: b"ignored".to_vec() }));
    assert_eq!(ok, Ok("out\n".to_string()));
    let failed = classify_command(Ok(ExitReport { success: false, stdout: b"x".to_vec(), stderr: vec![0xff] }));
    assert_eq!(failed, Err("Command failed: \u{fffd}".to_string()));
    let unstarted = classify_command(Err("No such file or directory (os error 2)".to_string()));
    assert_eq!(unstarted, Err("No such file or directory (os error 2)".to_string()));
}

#[test]
fn wrong_event_is_refused() {
    let inst = Installer::new();
    assert!(!inst.accepts(&done()));
    assert!(inst.accepts(&Event::Start));
    assert_eq!(inst.expects(), EventKind::Start);
}

#[test]
fn each_operation_is_answered_by_what_comes_next() {
    let mut inst = Installer::new();
    let mut step = feed(&mut inst, Event::Start);
    loop {
        assert_eq!(step.op.answered_by(), inst.expects(), "after {:?}", step.op);
        if let Op::Exit { .. } = step.op {
            break;
        }
        let e = success_for(&step.op);
        step = feed(&mut inst, e);
    }
    assert_eq!(inst.expects(), EventKind::Nothing);
}

#[test]
fn tunnel_server_setup_stays_in_its_directory() {
    let mut inst = drive_to(Stage::SshRestart);
    let mut step = feed(&mut inst, ok_run(""));
    let mut ops = Vec::new();
    while inst.stage != Stage::UnitWrite {
        ops.push(format!("{:?}", step.op));
        match &step.op {
            Op::RemoveDirIfExists { path } | Op::CreateDirAll { path } | Op::ChangeDir { path } => {
                assert_eq!(path, "/etc/slowdns")
            },
            Op::Download { path, .. } | Op::SetMode { path, .. } => {
                assert!(path.starts_with("/etc/slowdns/"), "{}", path)
            },
            Op::Run { command } => assert_eq!(command, "./dnstt-server --help"),
            other => panic!("unexpected operation {:?}", other),
        }
        let e = success_for(&step.op);
        step = feed(&mut inst, e);
    }
    assert_eq!(ops.len(), 8);
    assert!(ops[0].starts_with("RemoveDirIfExists"));
    assert!(ops[1].starts_with("CreateDirAll"));
    assert!(ops[2].starts_with("ChangeDir"));
    assert_eq!(inst.nameserver, "tunnel.example.com");
}

#[test]
fn failed_directory_creation_never_changes_into_it() {
    let mut inst = drive_to(Stage::DnsCreateDir);
    let s = feed(&mut inst, Event::Done(Err("Permission denied (os error 13)".to_string())));
    assert!(matches!(s.op, Op::RemoveFiles { .. }));
    assert_eq!(inst.stage, Stage::FailedCleanup);
}

#[test]
fn first_failure_ends_the_run() {
    let mut inst = drive_to(Stage::EdnsCompile);
    let s = feed(&mut inst, failed_run("edns.c:1: error"));
    assert_eq!(inst.stage, Stage::FailedCleanup);
    assert_eq!(all_text(&s).last().unwrap(), "✗ Installation failed: Command failed: edns.c:1: error");
    let s = feed(&mut inst, done());
    assert!(matches!(s.op, Op::Exit { code: 1 }));
    assert!(s.notes.is_empty());
    assert_eq!(inst.stage, Stage::Finished);
    assert!(!inst.accepts(&done()));
    assert!(!inst.accepts(&ok_run("")));
}

