# kaguya

Authorization for a self-hosted [Lore](https://github.com/EpicGames/lore)
version-control server, as a verified library with two services around it.

- `kaguya-auth` turns a Dex identity into short-lived Lore tokens that are scoped
  to the repositories the caller may reach. Grants are owner or member roles, held
  directly or through a group.
- `kaguya-web` is a read-only web frontend: it logs users in with Dex, keeps their
  Lore token in a server-side session, and lists their repositories.

## Layout

`src/` is the library, verified with Verus. Its contracts are stated over plain
mathematical models: sets and maps of grants, sequences of characters, JSON values.

- `auth/store.rs` holds the grants and who may reach what; `auth/access.rs` states
  what holds of them.
- `auth/jwt.rs`, `auth/payload.rs`, `auth/keys.rs` and `auth/verify.rs` read, sign and
  verify tokens; `auth/tokens.rs` states what holds of the tokens that are issued.
- `auth/service.rs` decides what each call of the auth service is answered, and
  `auth/calls.rs` leads from the request to the answer; `auth/sessions.rs`,
  `auth/dexlogin.rs`, `auth/jwks.rs` and `auth/admin.rs` hold logins in progress, the
  device flow, the published key set and the admin commands.
- `web/` decides what the browser is answered; `web/logins.rs` states what holds of
  logins and sessions.
- `text.rs`, `table.rs`, `json.rs`, `encoding.rs` and `clock.rs` are what the rest
  is built from.

What is taken from other crates without proof stands behind small functions marked
`external_body`, and behind `assume_specification`; the comment above each says
what is claimed of it.

`app/` runs the services: gRPC and HTTP servers, SQLite, files and the environment.
`tests/` runs the library with the real crates.
