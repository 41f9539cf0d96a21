# moonbox

The verified core of Moonbox Desktop, a desktop client for
[frp](https://github.com/fatedier/frp): it writes the frpc configuration,
runs frpc as a child process, derives the connection state from frpc's own
status endpoint, updates the frpc engine, and starts or stops frpc on a weekly
schedule.

`src/` is the library, written in Verus; its functions carry contracts that
Verus proves, and the laws that tie the operations together are proof
functions (`law_*`). Eight small functions there are trusted, not proved: each
is marked `#[verifier::external_body]`, makes one call into std or an outside
crate, and its contract is believed as its doc comment states it:
`push_char` (`String::push`), `is_whitespace` (`char::is_whitespace`),
`to_lowercase` (`str::to_lowercase`), `sha256` (`sha2`), `hex_encode` (`hex`),
`read_gz_tar` (`flate2` and `tar`), `check_semver` and `not_newer` (`semver`). `app/` is the Tauri application around it: commands,
events, files, network, child processes and timers. `tests/` exercises the
library on concrete values.

| module | contents |
| --- | --- |
| `text` | character-level helpers: decimal text, case-insensitive and lexicographic comparison |
| `types` | launch parameters and proxy rules |
| `config` | `frpc.toml` text: escaping, validation, exact layout |
| `frpc_state` | connection state machine (stopped / connecting / connected / error), log buffer |
| `frpc_update` | platform names, asset URLs, `checksums.txt`, SHA-256 check, extraction, release assessment, update state |
| `prefs` | preferences, `HH:MM` times, schedule validation |
| `scheduler` | schedule window and minute ticks |
| `process` | recognition of orphaned frpc processes, splitting of frpc's output into log lines |
| `latency`, `proxy_health` | results of the network probes |
| `proxy_relay` | traffic sampling and the rewrite of rules for the byte-counting relay |
