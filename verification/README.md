# Subdomain Manager

A Calagopus panel extension that lets users create and manage subdomains for
their game servers through Cloudflare, Bunny.net DNS or PowerDNS.

The decisions of the extension are a Verus-verified library (`src/`):

- `records` – placeholder rendering, allocation targets (A/AAAA/CNAME) and
  the records a set of templates produces;
- `providers` – provider choice and the request bodies, record ids and RRset
  changes of the Cloudflare, Bunny and PowerDNS APIs;
- `settings`, `blacklist` – settings with their defaults and per-egg
  overrides, and the case-insensitive name blacklist;
- `service` – name rules, the checks before a subdomain is created, and the
  create-with-rollback, allocation-change and delete sequences as state
  machines;
- `model`, `db`, `routes`, `extension` – the per-server limit, stored rows and
  API shapes, the decisions of each HTTP route (including the order in which a domain
  write is verified and checked), and the permissions;
- `text`, `ipaddr`, `ids` – strings, IP addresses and UUIDs as plain values.

`app/` is the extension as the panel loads it: database access, HTTP clients
for the providers, axum routes and panel hooks, which perform what the library
decides. `tests/` exercises the library on concrete values.
