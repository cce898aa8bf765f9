# spotify-peek

A Spotify card that drops down when the cursor touches the top edge of the
screen. The decisions are a verified library under `src/`; `app/` owns the
surfaces, the session bus, the network and the disk, and carries out what the
library decides.

| Module | What it decides |
| --- | --- |
| `card` | opening and closing, the sliding window, what is drawn and what is looked up |
| `card_laws` | what holds of the card whatever happens to it |
| `api` | requests to the Web API and what its replies say |
| `auth` | which access token a request uses, and when it is refreshed |
| `art` | where album art is cached and how a download proceeds |
| `mpris` | what the player's properties say, and a track's id and link |
| `json` | documents as far as they are read and written |
| `text` | strings |
| `cli` | the command line and the memory probe |

`card::State`, `auth::Session` and `art::Fetch` are state machines: each takes an
event and says what to do next. JSON is parsed and written by `serde_json` and
the client credentials are encoded by `base64`; what is believed of the two
crates is stated where they are called, in `json` and `auth`.
