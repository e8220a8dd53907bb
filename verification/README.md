# alma_negra

A Discord bot that joins voice channels, records what each user says, and
writes a user's recording to a WAV file when the user leaves the call.

- `src/` is the verified library:
  - `voice.rs`: the store of first recordings per user and the call
    recorder, a state machine from voice event to next state and action;
  - `recording_laws.rs`: what the recorder guarantees across events;
  - `shared_maps.rs`: the concurrent maps of the recorder, with their contracts;
  - `decimal.rs`: decimal rendering of user ids, the recording keys;
  - `commands.rs`: the chat replies of `join` and `leave`;
  - `interpreter.rs`: the pieces a recording is fed to the recognizer in;
  - `repository.rs`: reading a JSON object into a map;
  - `models.rs`: per-user game statistics.
- `app/` is the program: the Discord client, the songbird event handler that
  feeds the recorder, WAV files, and the vosk speech recognizer.
- `tests/` exercises the library.
