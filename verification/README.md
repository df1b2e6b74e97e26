# ipatool

A library and command-line tool for fetching app archives from the App Store:
signing in, acquiring free licences, downloading an app and writing the
account's metadata and DRM signatures into it, and reading a version's
metadata from its archive with byte-range requests.

The library under `src/` is verified with Verus. Each public function states
in its contract what it returns, over mathematical models of the store's
records (`Seq`, `Option`, `Result` and the error's view). Where the result
rests on the machine (what the keyring holds, the MAC address, the home
directory), the contract states what is asked and what each possible answer
comes to.

- `text`: strings as sequences of characters: trimming, searching, numbers.
- `paths`: the paths of the main app's `Info.plist` and its bundle name.
- `zipdir`, `remote`: the ZIP end record, the ZIP64 records, the central
  directory and a local entry, read from byte ranges of a remote archive.
- `metadata`: display version and release date of an app version.
- `store`: the store's endpoints and request bodies.
- `login`: the sign-in conversation as a state machine whose every step is
  decided by the library; the requests are sent by the caller.
- `purchase`: what a purchase answer means and the pricing fallback.
- `download`: the download answer, the file name and destination, and the
  plan for patching the archive.
- `session`: settings, the saved account in the keyring, the sign-in
  endpoint, search results.
- `util`: cleaning up property-list answers, the device identifier, styled
  messages.

Calls into other crates (`regex`, `time`, `zip`, `plist`, `keyring`,
`mac_address`, `owo-colors`, `dirs`) go through small functions whose
contracts are trusted; their doc comments say what is claimed.

`app/` holds the command line, the HTTP client, the files and the parsing of
the store's property lists into the library's records. `tests/` runs the
library on concrete values.
