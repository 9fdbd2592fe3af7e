use vstd::prelude::*;

use crate::content::{SERVER_PUBLIC_KEY, SLOWDNS_PORT, SSH_PORT};
use crate::display::{Note, NoteView, Style, append_notes, blank, header, line1, mk_blank, mk_header, mk_line1, mk_rule, notes_view, push_note, rule, sp, span, span_owned, spans_view};
use crate::machine::{Event, EventView, FileText, FileTextView, Installer, InstallerView, Op, OpView, Stage, Step, StepView, accepts, at, exited_of, file_of, new_notes, step_of, take_exited, take_file};
use crate::network::{CHECK_EDNS_COMMAND, CHECK_SLOWDNS_COMMAND};
use crate::text::{decimal, decimal_string, lines, lines_of, owned};

verus! {

pub const PORT_53_CHECK_COMMAND: &'static str = "ss -ulpn 2>/dev/null | grep ':53 '";

/// The command that looks for a listener on the tunnel server's port.
pub open spec fn port_check_command() -> Seq<char> {
    "ss -ulpn 2>/dev/null | grep ':"@ + decimal(SLOWDNS_PORT as nat) + " '"@
}

/// An announced check, written without a line end: `"  ℹ <text>"`.
pub open spec fn checking(text: Seq<char>) -> NoteView {
    NoteView::Partial(seq![sp(Style::Plain, "  "@), sp(Style::Cyan, "ℹ"@), sp(Style::Plain, " "@ + text)])
}

/// The result of a check, overwriting its announcement.
pub open spec fn check_result(passed: bool, good: Seq<char>, bad: Seq<char>) -> NoteView {
    if passed {
        NoteView::Line(seq![sp(Style::Plain, "\r  "@), sp(Style::Green, "✓"@), sp(Style::Plain, " "@ + good)])
    } else {
        NoteView::Line(seq![sp(Style::Plain, "\r  "@), sp(Style::Yellow, "!"@), sp(Style::Plain, " "@ + bad)])
    }
}

/// The opening of the summary.
pub open spec fn summary_intro(ip: Seq<char>, ns: Seq<char>) -> Seq<NoteView> {
    header("🎉 INSTALLATION COMPLETE"@) + server_info(ip, ns)
}

/// After `notes`, the summary begins; the first port check is announced, then output is flushed.
pub open spec fn summary_begin(s: InstallerView, notes: Seq<NoteView>) -> (InstallerView, StepView) {
    (at(s, Stage::SumFlushPort53), step_of(notes + summary_intro(s.server_ip, s.nameserver), OpView::Flush))
}

/// The title of the public key section.
pub open spec fn public_key_title() -> NoteView {
    NoteView::Line(seq![sp(Style::Plain, "\n"@), sp(Style::CyanBold, "PUBLIC KEY (For Client Configuration)"@)])
}

/// The first line of a text, as a white line, when it has one.
pub open spec fn first_line_notes(text: Seq<char>) -> Seq<NoteView> {
    if lines_of(text).len() > 0 {
        seq![line1(Style::White, lines_of(text)[0])]
    } else {
        seq![]
    }
}

/// The public key section: shown when the key file exists, with its first line when the
/// file could be read.
pub open spec fn public_key_section(f: FileTextView) -> Seq<NoteView> {
    match f {
        FileTextView::Missing => seq![],
        FileTextView::Unreadable => seq![public_key_title(), rule(), rule()],
        FileTextView::Content(c) => seq![public_key_title(), rule()] + first_line_notes(c) + seq![rule()],
    }
}

pub open spec fn is_report(stage: Stage) -> bool {
    match stage {
        Stage::SumFlushPort53 | Stage::SumPort53 | Stage::SumFlushPort5300 | Stage::SumPort5300
        | Stage::SumFlushStatus | Stage::SumSlowdnsActive | Stage::SumEdnsActive | Stage::SumPublicKey => true,
        _ => false,
    }
}

/// The summary with its checks: a port listens when `ss` lists it, a service runs when
/// `systemctl is-active` succeeds; then the menu is offered.
pub open spec fn report_transition(s: InstallerView, e: EventView) -> (InstallerView, StepView) {
    match s.stage {
        Stage::SumFlushPort53 => crate::provision::on_done(
            s,
            e,
            Stage::SumPort53,
            seq![],
            OpView::Run { command: PORT_53_CHECK_COMMAND@ },
        ),
        Stage::SumPort53 => (
            at(s, Stage::SumFlushPort5300),
            step_of(
                seq![
                    check_result(exited_of(e) is Ok, "Port 53 (EDNS Proxy) is listening"@, "Port 53 not listening"@),
                    checking("Checking port 5300..."@),
                ],
                OpView::Flush,
            ),
        ),
        Stage::SumFlushPort5300 => crate::provision::on_done(
            s,
            e,
            Stage::SumPort5300,
            seq![],
            OpView::Run { command: port_check_command() },
        ),
        Stage::SumPort5300 => (
            at(s, Stage::SumFlushStatus),
            step_of(
                seq![
                    check_result(
                        exited_of(e) is Ok,
                        "Port "@ + decimal(SLOWDNS_PORT as nat) + " (SlowDNS) is listening"@,
                        "Port "@ + decimal(SLOWDNS_PORT as nat) + " not listening"@,
                    ),
                    checking("Checking service status..."@),
                ],
                OpView::Flush,
            ),
        ),
        Stage::SumFlushStatus => crate::provision::on_done(
            s,
            e,
            Stage::SumSlowdnsActive,
            seq![],
            OpView::Run { command: CHECK_SLOWDNS_COMMAND@ },
        ),
        Stage::SumSlowdnsActive => (
            InstallerView { stage: Stage::SumEdnsActive, slowdns_active: exited_of(e) is Ok, ..s },
            step_of(seq![], OpView::Run { command: CHECK_EDNS_COMMAND@ }),
        ),
        Stage::SumEdnsActive => (
            at(s, Stage::SumPublicKey),
            step_of(
                seq![check_result(
                    s.slowdns_active && exited_of(e) is Ok,
                    "All services are running"@,
                    "Some services need attention"@,
                )],
                OpView::ReadText { path: SERVER_PUBLIC_KEY@ },
            ),
        ),
        _ => (
            at(s, Stage::MenuFlush),
            step_of(
                public_key_section(file_of(e)) + summary_rest(s.server_ip, s.nameserver)
                    + crate::menu::menu_intro(),
                OpView::Flush,
            ),
        ),
    }
}

/// The first part of the summary: the server's settings, test commands, service management,
/// and the announcement of the first check.
pub open spec fn server_info(ip: Seq<char>, ns: Seq<char>) -> Seq<NoteView> {
    seq![
        NoteView::Line(seq![sp(Style::Plain, "\n"@), sp(Style::CyanBold, "SERVER INFORMATION"@)]),
        rule(),
        NoteView::Line(seq![sp(Style::Yellow, "●"@), sp(Style::Plain, " Server IP:     "@), sp(Style::WhiteBold, ip)]),
        NoteView::Line(seq![sp(Style::Yellow, "●"@), sp(Style::Plain, " SSH Port:      "@), sp(Style::White, decimal(SSH_PORT as nat))]),
        NoteView::Line(seq![sp(Style::Yellow, "●"@), sp(Style::Plain, " SlowDNS Port:  "@), sp(Style::White, decimal(SLOWDNS_PORT as nat))]),
        NoteView::Line(seq![sp(Style::Yellow, "●"@), sp(Style::Plain, " EDNS Port:     "@), sp(Style::White, "53"@)]),
        NoteView::Line(seq![sp(Style::Yellow, "●"@), sp(Style::Plain, " MTU Size:      "@), sp(Style::White, "1800"@)]),
        NoteView::Line(seq![sp(Style::Yellow, "●"@), sp(Style::Plain, " Nameserver:    "@), sp(Style::WhiteBold, ns)]),
        rule(),
        NoteView::Line(seq![sp(Style::Plain, "\n"@), sp(Style::CyanBold, "QUICK TEST COMMANDS"@)]),
        rule(),
        line1(Style::Green, "dig @"@ + ip + " "@ + ns),
        line1(Style::Green, "nslookup "@ + ns + " "@ + ip),
        line1(Style::Green, "systemctl status server-sldns"@),
        line1(Style::Green, "systemctl status edns-proxy"@),
        rule(),
        NoteView::Line(seq![sp(Style::Plain, "\n"@), sp(Style::CyanBold, "SERVICE MANAGEMENT"@)]),
        rule(),
        NoteView::Line(seq![sp(Style::Yellow, "Restart services:"@), sp(Style::Plain, " systemctl restart server-sldns edns-proxy"@)]),
        NoteView::Line(seq![sp(Style::Yellow, "View logs:"@), sp(Style::Plain, " journalctl -u server-sldns -f"@)]),
        NoteView::Line(seq![sp(Style::Yellow, "Check ports:"@), sp(Style::Plain, " ss -ulpn | grep ':53\\|:5300'"@)]),
        rule(),
        NoteView::Line(seq![sp(Style::Plain, "\n"@), sp(Style::WhiteBold, "Verifying installation..."@)]),
        NoteView::Partial(seq![sp(Style::Plain, "  "@), sp(Style::Cyan, "ℹ"@), sp(Style::Plain, " Checking port 53..."@)])
    ]
}

/// The last part of the summary: tips, the client command, troubleshooting and the closing box.
pub open spec fn summary_rest(ip: Seq<char>, ns: Seq<char>) -> Seq<NoteView> {
    seq![
        NoteView::Line(seq![sp(Style::Plain, "\n"@), sp(Style::CyanBold, "PERFORMANCE TIPS"@)]),
        rule(),
        NoteView::Line(seq![sp(Style::Yellow, "●"@), sp(Style::Plain, " MTU 1800 is optimal for most networks"@)]),
        NoteView::Line(seq![sp(Style::Yellow, "●"@), sp(Style::Plain, " For better performance, use TCP instead of UDP"@)]),
        NoteView::Line(seq![sp(Style::Yellow, "●"@), sp(Style::Plain, " Monitor performance: systemctl status server-sldns"@)]),
        NoteView::Line(seq![sp(Style::Yellow, "●"@), sp(Style::Plain, " Check logs: journalctl -u edns-proxy -n 50"@)]),
        rule(),
        NoteView::Line(seq![sp(Style::Plain, "\n"@), sp(Style::CyanBold, "CLIENT CONFIGURATION EXAMPLE"@)]),
        rule(),
        line1(Style::Yellow, "SlowDNS Client Command:"@),
        line1(Style::Green, "./dnstt-client -udp "@ + ip + ":"@ + decimal(SLOWDNS_PORT as nat) + " \\"@),
        line1(Style::Green, "    -pubkey-file server.pub \\"@),
        line1(Style::Green, "    "@ + ns + " 127.0.0.1:1080"@),
        rule(),
        NoteView::Line(seq![sp(Style::Plain, "\n"@), sp(Style::CyanBold, "TROUBLESHOOTING"@)]),
        rule(),
        line1(Style::Yellow, "If port 53 is not listening:"@),
        line1(Style::White, "1. Stop systemd-resolved: systemctl stop systemd-resolved"@),
        line1(Style::White, "2. Kill any process on port 53: fuser -k 53/udp"@),
        line1(Style::White, "3. Restart edns-proxy: systemctl restart edns-proxy"@),
        blank(),
        line1(Style::Yellow, "If SlowDNS is not working:"@),
        line1(Style::White, "1. Check firewall: iptables -L -n -v"@),
        line1(Style::White, "2. Verify keys: ls -la /etc/slowdns/"@),
        line1(Style::White, "3. Restart all: systemctl restart server-sldns edns-proxy"@),
        rule(),
        NoteView::Line(seq![sp(Style::Plain, "\n"@), sp(Style::GreenBold, "╔══════════════════════════════════════════════════════════╗"@)]),
        line1(Style::GreenBold, "║    🎯 SLOWDNS INSTALLATION COMPLETED SUCCESSFULLY!    ║"@),
        line1(Style::GreenBold, "║    ⚡ Installation completed in Rust                     ║"@),
        line1(Style::GreenBold, "║    📊 Services running: SlowDNS + EDNS Proxy            ║"@),
        line1(Style::GreenBold, "║    🔧 Ready for DNS tunneling                           ║"@),
        line1(Style::GreenBold, "╚══════════════════════════════════════════════════════════╝"@),
        NoteView::Line(seq![sp(Style::Plain, "\n"@), sp(Style::YellowBold, "📞"@), sp(Style::Plain, " "@), sp(Style::YellowBold, "Need help? Contact support: @esimfreegb"@)]),
        NoteView::Line(seq![sp(Style::YellowBold, "💡"@), sp(Style::Plain, " "@), sp(Style::YellowBold, "Documentation: https://github.com/chiddy80/Halotel-Slow-DNS"@)])
    ]
}

pub fn mk_server_info(ip: &str, ns: &str) -> (notes: Vec<Note>)
    ensures
        notes_view(notes@) == server_info(ip@, ns@),
{
    let port = decimal_string(SLOWDNS_PORT as u64);
    let ssh_port = decimal_string(SSH_PORT as u64);
    let mut notes = new_notes();
    let v1 = vec![span(Style::Plain, "\n"), span(Style::CyanBold, "SERVER INFORMATION")];
    proof {
        assert(spans_view(v1@) =~= seq![sp(Style::Plain, "\n"@), sp(Style::CyanBold, "SERVER INFORMATION"@)]);
    }
    push_note(&mut notes, Note::Line(v1));
    push_note(&mut notes, mk_rule());
    let t2 = owned(ip);
    let v3 = vec![span(Style::Yellow, "●"), span(Style::Plain, " Server IP:     "), span(Style::WhiteBold, t2.as_str())];
    proof {
        assert(spans_view(v3@) =~= seq![sp(Style::Yellow, "●"@), sp(Style::Plain, " Server IP:     "@), sp(Style::WhiteBold, ip@)]);
    }
    push_note(&mut notes, Note::Line(v3));
    let t4 = owned(ssh_port.as_str());
    let v5 = vec![span(Style::Yellow, "●"), span(Style::Plain, " SSH Port:      "), span(Style::White, t4.as_str())];
    proof {
        assert(spans_view(v5@) =~= seq![sp(Style::Yellow, "●"@), sp(Style::Plain, " SSH Port:      "@), sp(Style::White, decimal(SSH_PORT as nat))]);
    }
    push_note(&mut notes, Note::Line(v5));
    let t6 = owned(port.as_str());
    let v7 = vec![span(Style::Yellow, "●"), span(Style::Plain, " SlowDNS Port:  "), span(Style::White, t6.as_str())];
    proof {
        assert(spans_view(v7@) =~= seq![sp(Style::Yellow, "●"@), sp(Style::Plain, " SlowDNS Port:  "@), sp(Style::White, decimal(SLOWDNS_PORT as nat))]);
    }
    push_note(&mut notes, Note::Line(v7));
    let v8 = vec![span(Style::Yellow, "●"), span(Style::Plain, " EDNS Port:     "), span(Style::White, "53")];
    proof {
        assert(spans_view(v8@) =~= seq![sp(Style::Yellow, "●"@), sp(Style::Plain, " EDNS Port:     "@), sp(Style::White, "53"@)]);
    }
    push_note(&mut notes, Note::Line(v8));
    let v9 = vec![span(Style::Yellow, "●"), span(Style::Plain, " MTU Size:      "), span(Style::White, "1800")];
    proof {
        assert(spans_view(v9@) =~= seq![sp(Style::Yellow, "●"@), sp(Style::Plain, " MTU Size:      "@), sp(Style::White, "1800"@)]);
    }
    push_note(&mut notes, Note::Line(v9));
    let t10 = owned(ns);
    let v11 = vec![span(Style::Yellow, "●"), span(Style::Plain, " Nameserver:    "), span(Style::WhiteBold, t10.as_str())];
    proof {
        assert(spans_view(v11@) =~= seq![sp(Style::Yellow, "●"@), sp(Style::Plain, " Nameserver:    "@), sp(Style::WhiteBold, ns@)]);
    }
    push_note(&mut notes, Note::Line(v11));
    push_note(&mut notes, mk_rule());
    let v12 = vec![span(Style::Plain, "\n"), span(Style::CyanBold, "QUICK TEST COMMANDS")];
    proof {
        assert(spans_view(v12@) =~= seq![sp(Style::Plain, "\n"@), sp(Style::CyanBold, "QUICK TEST COMMANDS"@)]);
    }
    push_note(&mut notes, Note::Line(v12));
    push_note(&mut notes, mk_rule());
    let t13 = owned("dig @").concat(ip).concat(" ").concat(ns);
    push_note(&mut notes, mk_line1(Style::Green, t13.as_str()));
    let t14 = owned("nslookup ").concat(ns).concat(" ").concat(ip);
    push_note(&mut notes, mk_line1(Style::Green, t14.as_str()));
    push_note(&mut notes, mk_line1(Style::Green, "systemctl status server-sldns"));
    push_note(&mut notes, mk_line1(Style::Green, "systemctl status edns-proxy"));
    push_note(&mut notes, mk_rule());
    let v15 = vec![span(Style::Plain, "\n"), span(Style::CyanBold, "SERVICE MANAGEMENT")];
    proof {
        assert(spans_view(v15@) =~= seq![sp(Style::Plain, "\n"@), sp(Style::CyanBold, "SERVICE MANAGEMENT"@)]);
    }
    push_note(&mut notes, Note::Line(v15));
    push_note(&mut notes, mk_rule());
    let v16 = vec![span(Style::Yellow, "Restart services:"), span(Style::Plain, " systemctl restart server-sldns edns-proxy")];
    proof {
        assert(spans_view(v16@) =~= seq![sp(Style::Yellow, "Restart services:"@), sp(Style::Plain, " systemctl restart server-sldns edns-proxy"@)]);
    }
    push_note(&mut notes, Note::Line(v16));
    let v17 = vec![span(Style::Yellow, "View logs:"), span(Style::Plain, " journalctl -u server-sldns -f")];
    proof {
        assert(spans_view(v17@) =~= seq![sp(Style::Yellow, "View logs:"@), sp(Style::Plain, " journalctl -u server-sldns -f"@)]);
    }
    push_note(&mut notes, Note::Line(v17));
    let v18 = vec![span(Style::Yellow, "Check ports:"), span(Style::Plain, " ss -ulpn | grep ':53\\|:5300'")];
    proof {
        assert(spans_view(v18@) =~= seq![sp(Style::Yellow, "Check ports:"@), sp(Style::Plain, " ss -ulpn | grep ':53\\|:5300'"@)]);
    }
    push_note(&mut notes, Note::Line(v18));
    push_note(&mut notes, mk_rule());
    let v19 = vec![span(Style::Plain, "\n"), span(Style::WhiteBold, "Verifying installation...")];
    proof {
        assert(spans_view(v19@) =~= seq![sp(Style::Plain, "\n"@), sp(Style::WhiteBold, "Verifying installation..."@)]);
    }
    push_note(&mut notes, Note::Line(v19));
    let v20 = vec![span(Style::Plain, "  "), span(Style::Cyan, "ℹ"), span(Style::Plain, " Checking port 53...")];
    proof {
        assert(spans_view(v20@) =~= seq![sp(Style::Plain, "  "@), sp(Style::Cyan, "ℹ"@), sp(Style::Plain, " Checking port 53..."@)]);
    }
    push_note(&mut notes, Note::Partial(v20));
    proof {
        assert(notes_view(notes@) =~= server_info(ip@, ns@));
    }
    notes
}

pub fn mk_summary_rest(ip: &str, ns: &str) -> (notes: Vec<Note>)
    ensures
        notes_view(notes@) == summary_rest(ip@, ns@),
{
    let port = decimal_string(SLOWDNS_PORT as u64);
    let mut notes = new_notes();
    let v1 = vec![span(Style::Plain, "\n"), span(Style::CyanBold, "PERFORMANCE TIPS")];
    proof {
        assert(spans_view(v1@) =~= seq![sp(Style::Plain, "\n"@), sp(Style::CyanBold, "PERFORMANCE TIPS"@)]);
    }
    push_note(&mut notes, Note::Line(v1));
    push_note(&mut notes, mk_rule());
    let v2 = vec![span(Style::Yellow, "●"), span(Style::Plain, " MTU 1800 is optimal for most networks")];
    proof {
        assert(spans_view(v2@) =~= seq![sp(Style::Yellow, "●"@), sp(Style::Plain, " MTU 1800 is optimal for most networks"@)]);
    }
    push_note(&mut notes, Note::Line(v2));
    let v3 = vec![span(Style::Yellow, "●"), span(Style::Plain, " For better performance, use TCP instead of UDP")];
    proof {
        assert(spans_view(v3@) =~= seq![sp(Style::Yellow, "●"@), sp(Style::Plain, " For better performance, use TCP instead of UDP"@)]);
    }
    push_note(&mut notes, Note::Line(v3));
    let v4 = vec![span(Style::Yellow, "●"), span(Style::Plain, " Monitor performance: systemctl status server-sldns")];
    proof {
        assert(spans_view(v4@) =~= seq![sp(Style::Yellow, "●"@), sp(Style::Plain, " Monitor performance: systemctl status server-sldns"@)]);
    }
    push_note(&mut notes, Note::Line(v4));
    let v5 = vec![span(Style::Yellow, "●"), span(Style::Plain, " Check logs: journalctl -u edns-proxy -n 50")];
    proof {
        assert(spans_view(v5@) =~= seq![sp(Style::Yellow, "●"@), sp(Style::Plain, " Check logs: journalctl -u edns-proxy -n 50"@)]);
    }
    push_note(&mut notes, Note::Line(v5));
    push_note(&mut notes, mk_rule());
    let v6 = vec![span(Style::Plain, "\n"), span(Style::CyanBold, "CLIENT CONFIGURATION EXAMPLE")];
    proof {
        assert(spans_view(v6@) =~= seq![sp(Style::Plain, "\n"@), sp(Style::CyanBold, "CLIENT CONFIGURATION EXAMPLE"@)]);
    }
    push_note(&mut notes, Note::Line(v6));
    push_note(&mut notes, mk_rule());
    push_note(&mut notes, mk_line1(Style::Yellow, "SlowDNS Client Command:"));
    let t7 = owned("./dnstt-client -udp ").concat(ip).concat(":").concat(port.as_str()).concat(" \\");
    push_note(&mut notes, mk_line1(Style::Green, t7.as_str()));
    push_note(&mut notes, mk_line1(Style::Green, "    -pubkey-file server.pub \\"));
    let t8 = owned("    ").concat(ns).concat(" 127.0.0.1:1080");
    push_note(&mut notes, mk_line1(Style::Green, t8.as_str()));
    push_note(&mut notes, mk_rule());
    let v9 = vec![span(Style::Plain, "\n"), span(Style::CyanBold, "TROUBLESHOOTING")];
    proof {
        assert(spans_view(v9@) =~= seq![sp(Style::Plain, "\n"@), sp(Style::CyanBold, "TROUBLESHOOTING"@)]);
    }
    push_note(&mut notes, Note::Line(v9));
    push_note(&mut notes, mk_rule());
    push_note(&mut notes, mk_line1(Style::Yellow, "If port 53 is not listening:"));
    push_note(&mut notes, mk_line1(Style::White, "1. Stop systemd-resolved: systemctl stop systemd-resolved"));
    push_note(&mut notes, mk_line1(Style::White, "2. Kill any process on port 53: fuser -k 53/udp"));
    push_note(&mut notes, mk_line1(Style::White, "3. Restart edns-proxy: systemctl restart edns-proxy"));
    push_note(&mut notes, mk_blank());
    push_note(&mut notes, mk_line1(Style::Yellow, "If SlowDNS is not working:"));
    push_note(&mut notes, mk_line1(Style::White, "1. Check firewall: iptables -L -n -v"));
    push_note(&mut notes, mk_line1(Style::White, "2. Verify keys: ls -la /etc/slowdns/"));
    push_note(&mut notes, mk_line1(Style::White, "3. Restart all: systemctl restart server-sldns edns-proxy"));
    push_note(&mut notes, mk_rule());
    let v10 = vec![span(Style::Plain, "\n"), span(Style::GreenBold, "╔══════════════════════════════════════════════════════════╗")];
    proof {
        assert(spans_view(v10@) =~= seq![sp(Style::Plain, "\n"@), sp(Style::GreenBold, "╔══════════════════════════════════════════════════════════╗"@)]);
    }
    push_note(&mut notes, Note::Line(v10));
    push_note(&mut notes, mk_line1(Style::GreenBold, "║    🎯 SLOWDNS INSTALLATION COMPLETED SUCCESSFULLY!    ║"));
    push_note(&mut notes, mk_line1(Style::GreenBold, "║    ⚡ Installation completed in Rust                     ║"));
    push_note(&mut notes, mk_line1(Style::GreenBold, "║    📊 Services running: SlowDNS + EDNS Proxy            ║"));
    push_note(&mut notes, mk_line1(Style::GreenBold, "║    🔧 Ready for DNS tunneling                           ║"));
    push_note(&mut notes, mk_line1(Style::GreenBold, "╚══════════════════════════════════════════════════════════╝"));
    let v11 = vec![span(Style::Plain, "\n"), span(Style::YellowBold, "📞"), span(Style::Plain, " "), span(Style::YellowBold, "Need help? Contact support: @esimfreegb")];
    proof {
        assert(spans_view(v11@) =~= seq![sp(Style::Plain, "\n"@), sp(Style::YellowBold, "📞"@), sp(Style::Plain, " "@), sp(Style::YellowBold, "Need help? Contact support: @esimfreegb"@)]);
    }
    push_note(&mut notes, Note::Line(v11));
    let v12 = vec![span(Style::YellowBold, "💡"), span(Style::Plain, " "), span(Style::YellowBold, "Documentation: https://github.com/chiddy80/Halotel-Slow-DNS")];
    proof {
        assert(spans_view(v12@) =~= seq![sp(Style::YellowBold, "💡"@), sp(Style::Plain, " "@), sp(Style::YellowBold, "Documentation: https://github.com/chiddy80/Halotel-Slow-DNS"@)]);
    }
    push_note(&mut notes, Note::Line(v12));
    proof {
        assert(notes_view(notes@) =~= summary_rest(ip@, ns@));
    }
    notes
}

fn mk_checking(text: &str) -> (n: Note)
    ensures
        n@ == checking(text@),
{
    let v = vec![span(Style::Plain, "  "), span(Style::Cyan, "ℹ"), span_owned(Style::Plain, owned(" ").concat(text))];
    proof {
        assert(spans_view(v@) =~= seq![sp(Style::Plain, "  "@), sp(Style::Cyan, "ℹ"@), sp(Style::Plain, " "@ + text@)]);
    }
    Note::Partial(v)
}

fn mk_check_result(passed: bool, good: &str, bad: &str) -> (n: Note)
    ensures
        n@ == check_result(passed, good@, bad@),
{
    if passed {
        let v = vec![span(Style::Plain, "\r  "), span(Style::Green, "✓"), span_owned(Style::Plain, owned(" ").concat(good))];
        proof {
            assert(spans_view(v@) =~= seq![sp(Style::Plain, "\r  "@), sp(Style::Green, "✓"@), sp(Style::Plain, " "@ + good@)]);
        }
        Note::Line(v)
    } else {
        let v = vec![span(Style::Plain, "\r  "), span(Style::Yellow, "!"), span_owned(Style::Plain, owned(" ").concat(bad))];
        proof {
            assert(spans_view(v@) =~= seq![sp(Style::Plain, "\r  "@), sp(Style::Yellow, "!"@), sp(Style::Plain, " "@ + bad@)]);
        }
        Note::Line(v)
    }
}

fn mk_public_key_title() -> (n: Note)
    ensures
        n@ == public_key_title(),
{
    let v = vec![span(Style::Plain, "\n"), span(Style::CyanBold, "PUBLIC KEY (For Client Configuration)")];
    proof {
        assert(spans_view(v@) =~= seq![sp(Style::Plain, "\n"@), sp(Style::CyanBold, "PUBLIC KEY (For Client Configuration)"@)]);
    }
    Note::Line(v)
}

/// The public key section for what reading the key file gave.
pub fn mk_public_key_section(f: FileText) -> (notes: Vec<Note>)
    ensures
        notes_view(notes@) == public_key_section(f@),
{
    let mut notes = new_notes();
    match f {
        FileText::Missing => {},
        FileText::Unreadable => {
            push_note(&mut notes, mk_public_key_title());
            push_note(&mut notes, mk_rule());
            push_note(&mut notes, mk_rule());
        },
        FileText::Content(c) => {
            push_note(&mut notes, mk_public_key_title());
            push_note(&mut notes, mk_rule());
            let mut ls = lines(c.as_str());
            if ls.len() > 0 {
                let first = ls.remove(0);
                push_note(&mut notes, mk_line1(Style::White, first.as_str()));
            }
            push_note(&mut notes, mk_rule());
        },
    }
    proof {
        assert(notes_view(notes@) =~= public_key_section(f@));
    }
    notes
}

impl Installer {
    pub fn summary_begin(&mut self, notes: Vec<Note>) -> (s: Step)
        ensures
            final(self)@ =~= summary_begin(old(self)@, notes_view(notes@)).0,
            s@ =~= summary_begin(old(self)@, notes_view(notes@)).1,
    {
        let mut notes = notes;
        append_notes(&mut notes, mk_header("🎉 INSTALLATION COMPLETE"));
        append_notes(&mut notes, mk_server_info(self.server_ip.as_str(), self.nameserver.as_str()));
        self.stage = Stage::SumFlushPort53;
        Step { notes, op: Op::Flush }
    }

    pub fn report_step(&mut self, e: Event) -> (s: Step)
        requires
            accepts(old(self).stage, e@),
            is_report(old(self).stage),
        ensures
            final(self)@ =~= report_transition(old(self)@, e@).0,
            s@ =~= report_transition(old(self)@, e@).1,
    {
        match self.stage {
            Stage::SumFlushPort53 => self.on_done(
                e,
                Stage::SumPort53,
                new_notes(),
                Op::Run { command: owned(PORT_53_CHECK_COMMAND) },
            ),
            Stage::SumPort53 => {
                let passed = take_exited(e).is_ok();
                let mut notes = new_notes();
                push_note(&mut notes, mk_check_result(passed, "Port 53 (EDNS Proxy) is listening", "Port 53 not listening"));
                push_note(&mut notes, mk_checking("Checking port 5300..."));
                self.stage = Stage::SumFlushPort5300;
                Step { notes, op: Op::Flush }
            },
            Stage::SumFlushPort5300 => {
                let command = owned("ss -ulpn 2>/dev/null | grep ':")
                    .concat(decimal_string(SLOWDNS_PORT as u64).as_str())
                    .concat(" '");
                self.on_done(e, Stage::SumPort5300, new_notes(), Op::Run { command })
            },
            Stage::SumPort5300 => {
                let passed = take_exited(e).is_ok();
                let port = decimal_string(SLOWDNS_PORT as u64);
                let good = owned("Port ").concat(port.as_str()).concat(" (SlowDNS) is listening");
                let bad = owned("Port ").concat(port.as_str()).concat(" not listening");
                let mut notes = new_notes();
                push_note(&mut notes, mk_check_result(passed, good.as_str(), bad.as_str()));
                push_note(&mut notes, mk_checking("Checking service status..."));
                self.stage = Stage::SumFlushStatus;
                Step { notes, op: Op::Flush }
            },
            Stage::SumFlushStatus => self.on_done(
                e,
                Stage::SumSlowdnsActive,
                new_notes(),
                Op::Run { command: owned(CHECK_SLOWDNS_COMMAND) },
            ),
            Stage::SumSlowdnsActive => {
                self.slowdns_active = take_exited(e).is_ok();
                self.stage = Stage::SumEdnsActive;
                Step { notes: new_notes(), op: Op::Run { command: owned(CHECK_EDNS_COMMAND) } }
            },
            Stage::SumEdnsActive => {
                let passed = self.slowdns_active && take_exited(e).is_ok();
                let mut notes = new_notes();
                push_note(&mut notes, mk_check_result(passed, "All services are running", "Some services need attention"));
                self.stage = Stage::SumPublicKey;
                Step { notes, op: Op::ReadText { path: owned(SERVER_PUBLIC_KEY) } }
            },
            _ => {
                let mut notes = mk_public_key_section(take_file(e));
                append_notes(&mut notes, mk_summary_rest(self.server_ip.as_str(), self.nameserver.as_str()));
                append_notes(&mut notes, crate::menu::mk_menu_intro());
                self.stage = Stage::MenuFlush;
                Step { notes, op: Op::Flush }
            },
        }
    }
}

} // verus!
