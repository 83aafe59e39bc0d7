# codex_oauth_auth

The authentication center for ChatGPT accounts: logging in with a device code,
keeping the accounts and their tokens, and sharing the credentials file with the
command line tool that renews the tokens in it by itself.

`src/` is the library. It holds what the center is, and decides. Its functions are
verified with Verus, except for the calls into other crates that are named below.

| module | what it holds |
| --- | --- |
| `text`, `table` | texts and a table with one value for each key |
| `error` | the errors and their texts |
| `clock` | the clock, expiry, and timestamps |
| `json` | the polling interval and the error code in a JSON value |
| `claims`, `identity` | the claims of a token, and the key of the account they name |
| `account` | accounts, tokens, and what is shown of them |
| `exchange` | the requests to the server, and what its replies mean |
| `adoption` | taking over tokens that another program has renewed |
| `listing` | the default account and the order of the list |
| `model` | the mathematical model of the center and of each operation |
| `manager` | the center |
| `login`, `resolution`, `handover`, `removal` | the flows that wait for the network or the disk, as steps from an event to an action |
| `laws` | what holds of the center as a whole |

`app/` does what the steps ask for: it sends the requests, reads and writes the
files, and holds the locks. `tests/` runs the library.

What is believed without proof: the calls into `base64`, `chrono` and `serde_json`,
which stand behind eight functions marked `external_body`, and what
`str::to_lowercase` and `str::to_ascii_lowercase` of the standard library return,
which `text` states with `assume_specification`. The doc comments say what each of
them claims.
