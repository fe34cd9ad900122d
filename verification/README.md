# crm

The verified core of a small CRM system of four gRPC services:

- `metadata`: the metadata service, which describes contents by id;
- `send`: the notification service's messages and its answer to a queued e-mail;
- `user_stat`: the user statistics service's configuration and queries, and the
  helpers its tests build queries and databases with;
- `crm`: the front service: authentication of callers by an Ed25519-signed
  bearer token, and the decisions of the welcome campaign.

Shared modules: `config` (where a service reads its configuration), `status`
(error answers), `time` (instants, through chrono) and `text` (character-level
string helpers and the specification of splitting).

`src/` is verified with Verus. `app/` holds the edges: YAML configuration
files, the tonic interceptor, the Tokio queue of the notification service, the
Postgres pool of the user statistics service and the calls of the welcome
campaign.
