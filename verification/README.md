# WarpNest

A local proxy pool over multiple authorized WARP instances: SOCKS5 and HTTP
Proxy Endpoints that schedule each connection onto a WARP Instance, a pool that
prefers instances with distinct Exit IPs, a conservative registration lifecycle
bounded by a Registration Budget, and status output that never shows secrets.

## Layout

- `src/` — the library, verified with Verus. Its public functions state what
  they return and change in `requires`/`ensures` contracts; the calls into
  outside crates sit behind small trusted wrappers whose contracts say what
  those crates do; laws that relate several functions are public proof
  functions named `law_*`.
  - `config`, `status`, `security`: the configuration and its exposure rules,
    status output, redaction.
  - `pool`, `proxy_auth`, `proxy`: classification by Exit IP, scheduling and
    selection, Proxy Authentication, the SOCKS5 session and HTTP decisions.
  - `probe`, `retry`, `warp_lifecycle`: probe cycles, retry discipline and the
    registration service.
  - `direct_public_warp_registration`, `observed_warp_material`,
    `public_warp_adapter`, `wireguard_fields`: registration material and the
    normalized adapter configuration.
  - `data_plane`, `runtime_pump`: the BoringTun runtime configuration and the
    packet pump between the user-space stack and the WireGuard engine.
  - `public_warp_registration_harness`, `real_warp_integration`: the opt-in
    harnesses as step-by-step state machines.
  - `codec`, `json_text`, `ip_text`, `text`: encodings and text handling.
- `app/` — the application around the library: command line, TOML
  Configuration File, SQLite State Store, Management API, the Proxy Endpoints'
  network loops, the async data plane boundary and the HTTPS registration
  transport.
- `tests/` — tests of the library.
