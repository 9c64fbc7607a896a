# vnt-hub

Configuration console of a VNT network: users, rooms, groups of devices, the configuration that
devices are sent, what devices report, and backups. The console is the control plane only; the
network itself is made by the `vnt` clients and the `vnts` server.

## Layout

- `src/` is the verified library. It performs no input or output. An operation asks for one call
  at a time (a query, a statement, a message to a device) and is resumed with the reply; its
  contract says which call follows which reply (`flow`).
  - `crypto`, `auth`: encryption, passwords, signed tokens, random identifiers
  - `db`: what is stored, and the statements and decisions with which it is read and changed
  - `api`: the requests of the web console
  - `client_api`: what clients say and what it leads to
  - `http_server`: telling protocols apart, certificates and keys
  - `state`, `config`, `models`, `json`, `sql`, `text`, `status`: data and its handling
  - `outside`: the calls into other crates, each with the contract that is relied on
- `app/` is the program: command line, database connection, web server, sockets.
- `tests/` runs the library, among others against a database in memory.

## Running

```text
vnt-hub --listen 0.0.0.0:29876 --console-listen 0.0.0.0:29878 --db ./vnt-hub.db --log-path console
```

`VNT_HUB_JWT_SECRET` is the secret that tokens are signed with, `CONSOLE_MASTER_KEY` the one that
stored configuration is encrypted under. The first start creates the user `admin` with the
password `admin`, and a self-signed certificate.
