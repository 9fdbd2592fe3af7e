use vstd::prelude::*;

use crate::text::{decimal, decimal_string, owned};

verus! {

/// The port that OpenSSH listens on.
pub const SSH_PORT: u16 = 22;

/// The UDP port of the DNS tunnel server.
pub const SLOWDNS_PORT: u16 = 5300;

/// Where the tunnel server and its keys are downloaded from.
pub const GITHUB_BASE: &'static str = "https://raw.githubusercontent.com/chiddy80/Halotel-Slow-DNS/main/DNSTT%20MODED";

pub const DEFAULT_NAMESERVER: &'static str = "dns.example.com";

pub const INSTALL_DIR: &'static str = "/etc/slowdns";

pub const LOG_FILE: &'static str = "/var/log/slowdns-install.log";

pub const SSH_CONFIG_FILE: &'static str = "/etc/ssh/sshd_config";

pub const SSH_CONFIG_BACKUP: &'static str = "/etc/ssh/sshd_config.backup";

pub const SERVER_BINARY: &'static str = "/etc/slowdns/dnstt-server";

pub const SERVER_KEY: &'static str = "/etc/slowdns/server.key";

pub const SERVER_PUBLIC_KEY: &'static str = "/etc/slowdns/server.pub";

pub const SLOWDNS_UNIT_FILE: &'static str = "/etc/systemd/system/server-sldns.service";

pub const EDNS_UNIT_FILE: &'static str = "/etc/systemd/system/edns-proxy.service";

pub const EDNS_SOURCE_FILE: &'static str = "/tmp/edns.c";

pub const EDNS_BINARY: &'static str = "/usr/local/bin/edns-proxy";

pub const COMPILE_LOG: &'static str = "/tmp/compile.log";

pub const EDNS_COMPILE_COMMAND: &'static str = "gcc -O3 -march=native -pipe /tmp/edns.c -o /usr/local/bin/edns-proxy";

pub const SSH_CONFIG_HEAD: &'static str = "# ============================================================================
# SLOWDNS OPTIMIZED SSH CONFIGURATION
# ============================================================================
";

pub const SSH_CONFIG_TAIL: &'static str = "Protocol 2
PermitRootLogin yes
PubkeyAuthentication yes
PasswordAuthentication yes
PermitEmptyPasswords no
ChallengeResponseAuthentication no
UsePAM yes
X11Forwarding no
PrintMotd no
PrintLastLog yes
TCPKeepAlive yes
ClientAliveInterval 60
ClientAliveCountMax 3
AllowTcpForwarding yes
GatewayPorts yes
Compression delayed
Subsystem sftp /usr/lib/openssh/sftp-server
MaxSessions 100
MaxStartups 100:30:200
LoginGraceTime 30
UseDNS no
";

pub const SERVICE_UNIT_HEAD: &'static str = r#"# ============================================================================
# SLOWDNS SERVICE CONFIGURATION
# ============================================================================
[Unit]
Description=SlowDNS Server
Description=High-performance DNS tunnel server
After=network.target sshd.service
Wants=network-online.target

[Service]
Type=simple
"#;

pub const SERVICE_UNIT_TAIL: &'static str = r#"Restart=always
RestartSec=5
User=root
LimitNOFILE=65536
LimitCORE=infinity
TimeoutStartSec=0

[Install]
WantedBy=multi-user.target
"#;

pub const EDNS_PROXY_SOURCE: &'static str = "#include <stdio.h>
#include <stdlib.h>
#include <string.h>
#include <unistd.h>
#include <sys/socket.h>
#include <sys/epoll.h>
#include <netinet/in.h>
#include <arpa/inet.h>
#include <fcntl.h>
#include <time.h>

#define EXT_EDNS 512
#define INT_EDNS 1800
#define SLOWDNS_PORT 5300
#define LISTEN_PORT 53
#define BUFFER_SIZE 4096
#define MAX_EVENTS 100

typedef struct {
    int client_fd;
    struct sockaddr_in client_addr;
    socklen_t addr_len;
    time_t timestamp;
} request_t;

int patch_edns(unsigned char *buf, int len, int new_size) {
    if(len < 12) return len;
    int offset = 12;
    int qdcount = (buf[4] << 8) | buf[5];
    for(int i = 0; i < qdcount && offset < len; i++) {
        while(offset < len && buf[offset]) offset++;
        offset += 5;
    }
    int arcount = (buf[10] << 8) | buf[11];
    for(int i = 0; i < arcount && offset < len; i++) {
        if(buf[offset] == 0 && offset + 4 < len) {
            int type = (buf[offset+1] << 8) | buf[offset+2];
            if(type == 41) {
                buf[offset+3] = new_size >> 8;
                buf[offset+4] = new_size & 0xFF;
                return len;
            }
        }
        offset++;
    }
    return len;
}

int set_nonblock(int fd) {
    int flags = fcntl(fd, F_GETFL, 0);
    if(flags < 0) return -1;
    return fcntl(fd, F_SETFL, flags | O_NONBLOCK);
}

int main() {
    printf(\"[EDNS Proxy] Starting high-performance DNS proxy...\\n\");
    
    int sock = socket(AF_INET, SOCK_DGRAM, 0);
    if(sock < 0) {
        perror(\"[ERROR] socket\");
        return 1;
    }
    
    if(set_nonblock(sock) < 0) {
        perror(\"[ERROR] fcntl\");
        close(sock);
        return 1;
    }
    
    struct sockaddr_in addr;
    memset(&addr, 0, sizeof(addr));
    addr.sin_family = AF_INET;
    addr.sin_port = htons(LISTEN_PORT);
    addr.sin_addr.s_addr = INADDR_ANY;
    
    if(bind(sock, (struct sockaddr*)&addr, sizeof(addr)) < 0) {
        perror(\"[ERROR] bind\");
        close(sock);
        return 1;
    }
    
    int epoll_fd = epoll_create1(0);
    if(epoll_fd < 0) {
        perror(\"[ERROR] epoll_create1\");
        close(sock);
        return 1;
    }
    
    struct epoll_event ev;
    ev.events = EPOLLIN;
    ev.data.fd = sock;
    
    if(epoll_ctl(epoll_fd, EPOLL_CTL_ADD, sock, &ev) < 0) {
        perror(\"[ERROR] epoll_ctl\");
        close(epoll_fd);
        close(sock);
        return 1;
    }
    
    printf(\"[EDNS Proxy] Listening on port 53 (epoll optimized)\\n\");
    printf(\"[EDNS Proxy] Ready to handle DNS queries\\n\");
    
    struct epoll_event events[MAX_EVENTS];
    request_t *requests[10000] = {0};
    
    while(1) {
        int n = epoll_wait(epoll_fd, events, MAX_EVENTS, 1000);
        for(int i = 0; i < n; i++) {
            if(events[i].data.fd == sock) {
                unsigned char buffer[BUFFER_SIZE];
                struct sockaddr_in client_addr;
                socklen_t client_len = sizeof(client_addr);
                int len = recvfrom(sock, buffer, BUFFER_SIZE, 0,
                                 (struct sockaddr*)&client_addr, &client_len);
                if(len > 0) {
                    patch_edns(buffer, len, INT_EDNS);
                    int up_sock = socket(AF_INET, SOCK_DGRAM, 0);
                    if(up_sock >= 0) {
                        set_nonblock(up_sock);
                        request_t *req = malloc(sizeof(request_t));
                        if(req) {
                            req->client_fd = sock;
                            req->client_addr = client_addr;
                            req->addr_len = client_len;
                            req->timestamp = time(NULL);
                            requests[up_sock] = req;
                            struct epoll_event up_ev;
                            up_ev.events = EPOLLIN;
                            up_ev.data.fd = up_sock;
                            epoll_ctl(epoll_fd, EPOLL_CTL_ADD, up_sock, &up_ev);
                            struct sockaddr_in up_addr;
                            memset(&up_addr, 0, sizeof(up_addr));
                            up_addr.sin_family = AF_INET;
                            up_addr.sin_port = htons(SLOWDNS_PORT);
                            inet_pton(AF_INET, \"127.0.0.1\", &up_addr.sin_addr);
                            sendto(up_sock, buffer, len, 0,
                                   (struct sockaddr*)&up_addr, sizeof(up_addr));
                        } else {
                            close(up_sock);
                        }
                    }
                }
            } else {
                int up_sock = events[i].data.fd;
                request_t *req = requests[up_sock];
                if(req) {
                    unsigned char buffer[BUFFER_SIZE];
                    int len = recv(up_sock, buffer, BUFFER_SIZE, 0);
                    if(len > 0) {
                        patch_edns(buffer, len, EXT_EDNS);
                        sendto(req->client_fd, buffer, len, 0,
                               (struct sockaddr*)&req->client_addr,
                               req->addr_len);
                    }
                    epoll_ctl(epoll_fd, EPOLL_CTL_DEL, up_sock, NULL);
                    close(up_sock);
                    free(req);
                    requests[up_sock] = NULL;
                }
            }
        }
    }
    return 0;
}";

pub const EDNS_PROXY_UNIT: &'static str = "# ============================================================================
# EDNS PROXY SERVICE CONFIGURATION
# ============================================================================
[Unit]
Description=EDNS Proxy for SlowDNS
Description=High-performance DNS proxy with EDNS support
After=server-sldns.service
Requires=server-sldns.service

[Service]
Type=simple
ExecStart=/usr/local/bin/edns-proxy
Restart=always
RestartSec=3
User=root
LimitNOFILE=65536

[Install]
WantedBy=multi-user.target
";

/// The `Port` line of an sshd configuration.
pub open spec fn port_line(port: Seq<char>) -> Seq<char> {
    "Port "@ + port + "\n"@
}

/// The sshd configuration that the installer writes: OpenSSH on `SSH_PORT`.
pub open spec fn ssh_config() -> Seq<char> {
    SSH_CONFIG_HEAD@ + port_line(decimal(SSH_PORT as nat)) + SSH_CONFIG_TAIL@
}

pub fn make_ssh_config() -> (s: String)
    ensures
        s@ == ssh_config(),
{
    owned(SSH_CONFIG_HEAD)
        .concat("Port ")
        .concat(decimal_string(SSH_PORT as u64).as_str())
        .concat("\n")
        .concat(SSH_CONFIG_TAIL)
}

/// The command line that runs the tunnel server for `nameserver`, forwarding to OpenSSH.
pub open spec fn server_invocation(nameserver: Seq<char>) -> Seq<char> {
    INSTALL_DIR@ + "/dnstt-server -udp :"@ + decimal(SLOWDNS_PORT as nat) + " -mtu 1800 -privkey-file "@
        + INSTALL_DIR@ + "/server.key "@ + nameserver + " 127.0.0.1:"@ + decimal(SSH_PORT as nat)
}

pub fn make_server_invocation(nameserver: &str) -> (s: String)
    ensures
        s@ == server_invocation(nameserver@),
{
    owned(INSTALL_DIR)
        .concat("/dnstt-server -udp :")
        .concat(decimal_string(SLOWDNS_PORT as u64).as_str())
        .concat(" -mtu 1800 -privkey-file ")
        .concat(INSTALL_DIR)
        .concat("/server.key ")
        .concat(nameserver)
        .concat(" 127.0.0.1:")
        .concat(decimal_string(SSH_PORT as u64).as_str())
}

/// The `ExecStart=` line of a systemd unit that runs `command`.
pub open spec fn exec_start_line(command: Seq<char>) -> Seq<char> {
    "ExecStart="@ + command + "\n"@
}

/// The systemd unit of the tunnel server.
pub open spec fn slowdns_unit(nameserver: Seq<char>) -> Seq<char> {
    SERVICE_UNIT_HEAD@ + exec_start_line(server_invocation(nameserver)) + SERVICE_UNIT_TAIL@
}

pub fn make_slowdns_unit(nameserver: &str) -> (s: String)
    ensures
        s@ == slowdns_unit(nameserver@),
{
    owned(SERVICE_UNIT_HEAD)
        .concat("ExecStart=")
        .concat(make_server_invocation(nameserver).as_str())
        .concat("\n")
        .concat(SERVICE_UNIT_TAIL)
}

/// The shell command that starts the tunnel server in the background.
pub open spec fn background_command(nameserver: Seq<char>) -> Seq<char> {
    server_invocation(nameserver) + " &"@
}

pub fn make_background_command(nameserver: &str) -> (s: String)
    ensures
        s@ == background_command(nameserver@),
{
    make_server_invocation(nameserver).concat(" &")
}

/// Where a file of the tunnel server is downloaded from.
pub open spec fn download_url(file: Seq<char>) -> Seq<char> {
    GITHUB_BASE@ + "/"@ + file
}

pub fn make_download_url(file: &str) -> (s: String)
    ensures
        s@ == download_url(file@),
{
    owned(GITHUB_BASE).concat("/").concat(file)
}

/// The firewall commands, in the order they are run.
pub open spec fn firewall_rules() -> Seq<Seq<char>> {
    seq![
        "iptables -F"@,
        "iptables -X"@,
        "iptables -t nat -F"@,
        "iptables -t nat -X"@,
        "iptables -P INPUT ACCEPT"@,
        "iptables -P FORWARD ACCEPT"@,
        "iptables -P OUTPUT ACCEPT"@,
        "iptables -A INPUT -i lo -j ACCEPT"@,
        "iptables -A OUTPUT -o lo -j ACCEPT"@,
        "iptables -A INPUT -m state --state ESTABLISHED,RELATED -j ACCEPT"@,
        "iptables -A INPUT -p tcp --dport "@ + decimal(SSH_PORT as nat) + " -j ACCEPT"@,
        "iptables -A INPUT -p udp --dport "@ + decimal(SLOWDNS_PORT as nat) + " -j ACCEPT"@,
        "iptables -A INPUT -p udp --dport 53 -j ACCEPT"@,
        "iptables -A INPUT -s 127.0.0.1 -d 127.0.0.1 -j ACCEPT"@,
        "iptables -A OUTPUT -s 127.0.0.1 -d 127.0.0.1 -j ACCEPT"@,
        "iptables -A INPUT -p icmp -j ACCEPT"@,
        "iptables -A INPUT -m state --state INVALID -j DROP"@,
    ]
}

pub fn make_firewall_rules() -> (v: Vec<String>)
    ensures
        crate::text::strings_view(v@) == firewall_rules(),
{
    let v = vec![
        owned("iptables -F"),
        owned("iptables -X"),
        owned("iptables -t nat -F"),
        owned("iptables -t nat -X"),
        owned("iptables -P INPUT ACCEPT"),
        owned("iptables -P FORWARD ACCEPT"),
        owned("iptables -P OUTPUT ACCEPT"),
        owned("iptables -A INPUT -i lo -j ACCEPT"),
        owned("iptables -A OUTPUT -o lo -j ACCEPT"),
        owned("iptables -A INPUT -m state --state ESTABLISHED,RELATED -j ACCEPT"),
        owned("iptables -A INPUT -p tcp --dport ").concat(decimal_string(SSH_PORT as u64).as_str()).concat(" -j ACCEPT"),
        owned("iptables -A INPUT -p udp --dport ").concat(decimal_string(SLOWDNS_PORT as u64).as_str()).concat(" -j ACCEPT"),
        owned("iptables -A INPUT -p udp --dport 53 -j ACCEPT"),
        owned("iptables -A INPUT -s 127.0.0.1 -d 127.0.0.1 -j ACCEPT"),
        owned("iptables -A OUTPUT -s 127.0.0.1 -d 127.0.0.1 -j ACCEPT"),
        owned("iptables -A INPUT -p icmp -j ACCEPT"),
        owned("iptables -A INPUT -m state --state INVALID -j DROP"),
    ];
    proof {
        assert(crate::text::strings_view(v@) =~= firewall_rules());
    }
    v
}

/// The temporary files that the installer removes when it is done.
pub open spec fn temporary_files() -> Seq<Seq<char>> {
    seq![EDNS_SOURCE_FILE@, COMPILE_LOG@, LOG_FILE@]
}

pub fn make_temporary_files() -> (v: Vec<String>)
    ensures
        crate::text::strings_view(v@) == temporary_files(),
{
    let v = vec![owned(EDNS_SOURCE_FILE), owned(COMPILE_LOG), owned(LOG_FILE)];
    proof {
        assert(crate::text::strings_view(v@) =~= temporary_files());
    }
    v
}

} // verus!
