use slowdns_installer::content::{
    make_background_command, make_download_url, make_firewall_rules, make_server_invocation, make_slowdns_unit,
    make_ssh_config, make_temporary_files, EDNS_PROXY_SOURCE, SLOWDNS_PORT, SSH_PORT,
};
use slowdns_installer::display::Note;
use slowdns_installer::machine::FileText;
use slowdns_installer::menu::{parse_menu_option, MenuOption};
use slowdns_installer::report::mk_public_key_section;
use slowdns_installer::text::decimal_string;

#[test]
fn decimal_matches_display() {
    assert_eq!(decimal_string(0), "0");
    assert_eq!(decimal_string(7), "7");
    assert_eq!(decimal_string(10), "10");
    assert_eq!(decimal_string(22), "22");
    assert_eq!(decimal_string(5300), "5300");
    assert_eq!(decimal_string(u64::MAX), u64::MAX.to_string());
}

fn first_key_line(content: &str) -> Option<String> {
    let notes = mk_public_key_section(FileText::Content(content.to_string()));
    // Title, rule, then the first line when there is one, then a rule.
    if notes.len() == 4 {
        match &notes[2] {
            Note::Line(spans) => Some(spans[0].text.clone()),
            other => panic!("{:?}", other),
        }
    } else {
        assert_eq!(notes.len(), 3);
        None
    }
}

#[test]
fn menu_answers_are_trimmed_of_unicode_white_space() {
    assert_eq!(parse_menu_option("\u{3000}2\u{a0}"), MenuOption::ListeningPorts);
    assert_eq!(parse_menu_option("\t4 \r\n"), MenuOption::InstallationLog);
    assert_eq!(parse_menu_option(" \n"), MenuOption::Invalid);
}

#[test]
fn public_key_line_is_the_first_line() {
    assert_eq!(first_key_line("KEY\r\nsecond"), Some("KEY".to_string()));
    assert_eq!(first_key_line("KEY\r"), Some("KEY\r".to_string()));
    assert_eq!(first_key_line("\nKEY"), Some(String::new()));
    assert_eq!(first_key_line(""), None);
    assert_eq!(mk_public_key_section(FileText::Missing).len(), 0);
    assert_eq!(mk_public_key_section(FileText::Unreadable).len(), 3);
}

#[test]
fn ssh_config_is_the_installed_configuration() {
    let expected = format!("# ============================================================================
# SLOWDNS OPTIMIZED SSH CONFIGURATION
# ============================================================================
Port {}
Protocol 2
PermitRootLogin yes
PubkeyAuthentication yes
PasswordAuthentication yes
PermitEmptyPasswords no
ChallengeResponseAuthentication no
UsePAM yes
X11Forwarding no
PrintMotd no
PrintLastLog yes
TCPKeepAlive yes
ClientAliveInterval 60
ClientAliveCountMax 3
AllowTcpForwarding yes
GatewayPorts yes
Compression delayed
Subsystem sftp /usr/lib/openssh/sftp-server
MaxSessions 100
MaxStartups 100:30:200
LoginGraceTime 30
UseDNS no
", 22);
    assert_eq!(make_ssh_config(), expected);
    assert!(make_ssh_config().contains("\nPort 22\nProtocol 2\n"));
}

#[test]
fn service_unit_runs_the_tunnel_server() {
    let expected = format!(
        r#"# ============================================================================
# SLOWDNS SERVICE CONFIGURATION
# ============================================================================
[Unit]
Description=SlowDNS Server
Description=High-performance DNS tunnel server
After=network.target sshd.service
Wants=network-online.target

[Service]
Type=simple
ExecStart={}/dnstt-server -udp :{} -mtu 1800 -privkey-file {}/server.key {} 127.0.0.1:{}
Restart=always
RestartSec=5
User=root
LimitNOFILE=65536
LimitCORE=infinity
TimeoutStartSec=0

[Install]
WantedBy=multi-user.target
"#,
        "/etc/slowdns", 5300, "/etc/slowdns", "tunnel.example.com", 22
    );
    assert_eq!(make_slowdns_unit("tunnel.example.com"), expected);
}

#[test]
fn fallback_runs_the_service_command() {
    let command = make_server_invocation("ns.example.org");
    assert_eq!(
        command,
        "/etc/slowdns/dnstt-server -udp :5300 -mtu 1800 -privkey-file /etc/slowdns/server.key ns.example.org 127.0.0.1:22"
    );
    assert_eq!(make_background_command("ns.example.org"), format!("{} &", command));
    assert!(make_slowdns_unit("ns.example.org").contains(&format!("\nExecStart={}\n", command)));
}

#[test]
fn firewall_rules_in_order() {
    let rules = make_firewall_rules();
    assert_eq!(rules.len(), 17);
    assert_eq!(rules[0], "iptables -F");
    assert_eq!(rules[10], format!("iptables -A INPUT -p tcp --dport {} -j ACCEPT", SSH_PORT));
    assert_eq!(rules[11], format!("iptables -A INPUT -p udp --dport {} -j ACCEPT", SLOWDNS_PORT));
    assert_eq!(rules[16], "iptables -A INPUT -m state --state INVALID -j DROP");
}

#[test]
fn downloads_come_from_the_release_directory() {
    assert_eq!(
        make_download_url("server.key"),
        "https://raw.githubusercontent.com/chiddy80/Halotel-Slow-DNS/main/DNSTT%20MODED/server.key"
    );
}

#[test]
fn temporary_files_listed() {
    assert_eq!(make_temporary_files(), vec!["/tmp/edns.c", "/tmp/compile.log", "/var/log/slowdns-install.log"]);
}

#[test]
fn proxy_source_is_the_c_program() {
    let expected = "#include <stdio.h>
#include <stdlib.h>
#include <string.h>
#include <unistd.h>
#include <sys/socket.h>
#include <sys/epoll.h>
#include <netinet/in.h>
#include <arpa/inet.h>
#include <fcntl.h>
#include <time.h>

#define EXT_EDNS 512
#define INT_EDNS 1800
#define SLOWDNS_PORT 5300
#define LISTEN_PORT 53
#define BUFFER_SIZE 4096
#define MAX_EVENTS 100

typedef struct {
    int client_fd;
    struct sockaddr_in client_addr;
    socklen_t addr_len;
    time_t timestamp;
} request_t;

int patch_edns(unsigned char *buf, int len, int new_size) {
    if(len < 12) return len;
    int offset = 12;
    int qdcount = (buf[4] << 8) | buf[5];
    for(int i = 0; i < qdcount && offset < len; i++) {
        while(offset < len && buf[offset]) offset++;
        offset += 5;
    }
    int arcount = (buf[10] << 8) | buf[11];
    for(int i = 0; i < arcount && offset < len; i++) {
        if(buf[offset] == 0 && offset + 4 < len) {
            int type = (buf[offset+1] << 8) | buf[offset+2];
            if(type == 41) {
                buf[offset+3] = new_size >> 8;
                buf[offset+4] = new_size & 0xFF;
                return len;
            }
        }
        offset++;
    }
    return len;
}

int set_nonblock(int fd) {
    int flags = fcntl(fd, F_GETFL, 0);
    if(flags < 0) return -1;
    return fcntl(fd, F_SETFL, flags | O_NONBLOCK);
}

int main() {
    printf(\"[EDNS Proxy] Starting high-performance DNS proxy...\\n\");
    
    int sock = socket(AF_INET, SOCK_DGRAM, 0);
    if(sock < 0) {
        perror(\"[ERROR] socket\");
        return 1;
    }
    
    if(set_nonblock(sock) < 0) {
        perror(\"[ERROR] fcntl\");
        close(sock);
        return 1;
    }
    
    struct sockaddr_in addr;
    memset(&addr, 0, sizeof(addr));
    addr.sin_family = AF_INET;
    addr.sin_port = htons(LISTEN_PORT);
    addr.sin_addr.s_addr = INADDR_ANY;
    
    if(bind(sock, (struct sockaddr*)&addr, sizeof(addr)) < 0) {
        perror(\"[ERROR] bind\");
        close(sock);
        return 1;
    }
    
    int epoll_fd = epoll_create1(0);
    if(epoll_fd < 0) {
        perror(\"[ERROR] epoll_create1\");
        close(sock);
        return 1;
    }
    
    struct epoll_event ev;
    ev.events = EPOLLIN;
    ev.data.fd = sock;
    
    if(epoll_ctl(epoll_fd, EPOLL_CTL_ADD, sock, &ev) < 0) {
        perror(\"[ERROR] epoll_ctl\");
        close(epoll_fd);
        close(sock);
        return 1;
    }
    
    printf(\"[EDNS Proxy] Listening on port 53 (epoll optimized)\\n\");
    printf(\"[EDNS Proxy] Ready to handle DNS queries\\n\");
    
    struct epoll_event events[MAX_EVENTS];
    request_t *requests[10000] = {0};
    
    while(1) {
        int n = epoll_wait(epoll_fd, events, MAX_EVENTS, 1000);
        for(int i = 0; i < n; i++) {
            if(events[i].data.fd == sock) {
                unsigned char buffer[BUFFER_SIZE];
                struct sockaddr_in client_addr;
                socklen_t client_len = sizeof(client_addr);
                int len = recvfrom(sock, buffer, BUFFER_SIZE, 0,
                                 (struct sockaddr*)&client_addr, &client_len);
                if(len > 0) {
                    patch_edns(buffer, len, INT_EDNS);
                    int up_sock = socket(AF_INET, SOCK_DGRAM, 0);
                    if(up_sock >= 0) {
                        set_nonblock(up_sock);
                        request_t *req = malloc(sizeof(request_t));
                        if(req) {
                            req->client_fd = sock;
                            req->client_addr = client_addr;
                            req->addr_len = client_len;
                            req->timestamp = time(NULL);
                            requests[up_sock] = req;
                            struct epoll_event up_ev;
                            up_ev.events = EPOLLIN;
                            up_ev.data.fd = up_sock;
                            epoll_ctl(epoll_fd, EPOLL_CTL_ADD, up_sock, &up_ev);
                            struct sockaddr_in up_addr;
                            memset(&up_addr, 0, sizeof(up_addr));
                            up_addr.sin_family = AF_INET;
                            up_addr.sin_port = htons(SLOWDNS_PORT);
                            inet_pton(AF_INET, \"127.0.0.1\", &up_addr.sin_addr);
                            sendto(up_sock, buffer, len, 0,
                                   (struct sockaddr*)&up_addr, sizeof(up_addr));
                        } else {
                            close(up_sock);
                        }
                    }
                }
            } else {
                int up_sock = events[i].data.fd;
                request_t *req = requests[up_sock];
                if(req) {
                    unsigned char buffer[BUFFER_SIZE];
                    int len = recv(up_sock, buffer, BUFFER_SIZE, 0);
                    if(len > 0) {
                        patch_edns(buffer, len, EXT_EDNS);
                        sendto(req->client_fd, buffer, len, 0,
                               (struct sockaddr*)&req->client_addr,
                               req->addr_len);
                    }
                    epoll_ctl(epoll_fd, EPOLL_CTL_DEL, up_sock, NULL);
                    close(up_sock);
                    free(req);
                    requests[up_sock] = NULL;
                }
            }
        }
    }
    return 0;
}";
    assert_eq!(EDNS_PROXY_SOURCE, expected);
    assert!(EDNS_PROXY_SOURCE.contains("#define INT_EDNS 1800"));
}
