# bcp

A terminal player for a Bandcamp collection: it lists the fan's purchases by
artist, album and track, streams or plays downloaded tracks, and downloads
albums into a local library.

The crate is in two parts.

- `src/` is the library, written and proved with Verus. It holds the
  player's state machine (`app::App::update`, whose contract is the spec
  function `app::step`), the key and mouse bindings (`keymap`), the artist
  index and the column filters (`artists`, `nav`), the play queue (`queue`),
  what is made of Bandcamp's collection pages and album pages once `serde`
  has read their JSON into the library's records (`collection`,
  `album_page`; the fan summary is read over the JSON model in `json`), the library
  index and file naming (`library`), the configuration and paths (`config`,
  `cache`, `auth`), the MP3 header reading (`mp3`), and the rows and layout
  of the panes (`views`, `layout`). Public proof functions named `law_...`
  state what holds across calls.
- `app/` is the program around it: the command line, the terminal, the
  network requests, the files, and the audio output. It hands the library
  plain values and performs the effects that `App::update` returns.

`tests/` exercises the library on concrete values.
