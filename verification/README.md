# multicloud

The verified core of a multi-tenant cloud control plane: organizations and role-based access,
identities and sessions, provider accounts with envelope-encrypted credentials, provider
adapters (Cloudflare DNS, Vultr and OVHcloud compute, and an in-process fake), canonical
resources with drift detection and reconciliation, operations with retries and a transactional
outbox, an audit trail with recursive redaction, and a support desk.

`src/` is the library, checked by Verus: every decision the services make is a function with a
contract. `app/` is the `multicloud` program around it: the HTTP API (axum) with the routes that
the service mounts (health, authentication, invitations, organizations and the tenant context;
the request rules of the other endpoints are in `src/api`), the worker loop, the administration
commands, settings and logging, and the HTTP calls to the providers; it hands the library plain
values and acts on what the library decides.

Layout of `src/`:

- `kernel`, `text`, `json`, `digest`: identifiers and instants, string helpers, the JSON and
  digest functions the rest relies on.
- `authorization`, `identity`, `organization`, `ticket`, `operation`: the domain of each
  bounded context.
- `provider`: the adapter model, HTTP failure normalization, credential encryption and the
  request plans and reply handling of each provider.
- `resource`: drift between desired and observed state, and inventory synchronization.
- `provider_operations`, `reliable_events`, `worker`: attempts, retries, dead letters and the
  outbox.
- `audit`: sanitizing and classifying events.
- `api`: the request rules of the HTTP API.
- `admin`, `cli`, `configuration`, `web`: the administration utility, the command line,
  settings and the served web application.
