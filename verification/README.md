# tauri-plugin-android-player (verified core)

A video player plugin for Tauri on Android, built on media3 ExoPlayer. The
player accepts HTTP(S) URLs, file paths, Android content URIs, tauri
filesystem paths and custom data providers.

- `src/` is the library, verified with Verus: media sources and the source
  list sent to the player, the registry of custom data streams and the lazily
  opened reader of each, the data-source error model, the argument checks of
  the native stream bridge, the read algorithm over seekable streams, and the
  bookkeeping of the shared sleep timer. `src/laws.rs` states the properties
  that span several operations.
- `app/` is the plugin around it: the Tauri plugin and command, the JNI
  entry points, locking, threads, and the adapters from `std::io` and tauri
  types.
- `tests/` exercises the library on concrete values.
