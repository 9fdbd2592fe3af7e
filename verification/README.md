# slowdns_installer

An installer for a SlowDNS (dnstt) tunnel server with an EDNS proxy in front of it,
written as a verified library and a thin program around it.

The library (`src/`, verified with Verus) decides everything the installer does: it is a
state machine (`machine::Installer`) that, given the outcome of the last operation,
answers what to show and which operation to perform next — write the sshd and systemd
configuration, download the server, compile and install the proxy, set up the firewall,
start and check the services, summarise, and serve the post-installation menu. Its
contract is the transition function `machine::transition`, split by phase:

- `preparation` — root check, nameserver question, detection of the server's address;
- `provision` — OpenSSH, the tunnel server's files and its service unit;
- `proxy` — compiler, compilation and unit of the EDNS proxy;
- `network` — firewall rules and service start-up with their fallbacks;
- `report` — the installation summary and its checks;
- `menu` — the post-installation menu;
- `content` — the configuration files and commands; `display` — styled terminal text;
- `text` — decimal numbers and the string functions of std the library relies on;
- `laws` — properties of the installer as a whole, proved;
- `runs` — whole runs: the phases come in order, and the first failure ends the run.

The program (`app/main.rs`) performs the operations (processes, files, HTTP, terminal)
and renders the notes with colours, spinners and prompts.
