# lyrfin core

The verified core of the lyrfin terminal music player, written in Verus.

`src/` is the library. Its functions are proved against their contracts,
except a few small wrappers around `char`, `String`, `DefaultHasher` and
`unicode-width` calls, whose contracts are trusted:

- `arabic` — Arabic shaping (contextual presentation forms, lam-alef
  ligatures), bidirectional reordering, and word-wrapping by display width
  with hyphenation and justification.
- `timeshift` — the fixed-capacity byte ring behind the live-stream DVR and
  the buffer state that a producer writes and a consumer reads.
- `http_source` — ICY stream-title parsing, the metadata-stripping read
  steps of a radio stream, and ranged seeks of a podcast source.
- `spotify` — the remove-from-playlist safety plan and browse-error wording.
- `artistinfo` — name folding, Wikidata ids, sitelink choice, MusicBrainz
  summaries and the order of bio lookups.
- `artwork` — artwork cache keys, Deezer hit choice and disk-cache names.
- `state`, `session` — the Spotify login connection and its reconnect
  back-off, librespot session events and Web API results, debounced
  skipping, and the retry timers and failure back-off of playback.
- `tags` — the tag editor (bulk `<keep>` fields, caret editing, what a save
  writes) and the Auto Tag search popup.
- `nav` — the layers Esc backs out of, in priority order, and the actions
  of the overlay layer (tabs, the tag editor and search popup).
- `playback`, `lyrics` — what audio-engine events do to the playback
  clocks, and the shared lyrics slot gated on its track.
- `appearance`, `atomicfile`, `types` — the light/dark mapping, the staging
  name of crash-safe writes, and the layout model.
- `text`, `unicode` — string helpers and the Unicode properties the rest
  reads.

`app/` holds the I/O around it: atomic file writes, the D-Bus appearance
watcher, the timeshift buffer's lock, producer thread and blocking consumer, the HTTP audio
sources and the artist-info worker. `tests/` exercises the library.
