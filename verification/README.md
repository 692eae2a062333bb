# wry

The decisions behind a web view that WebKit draws on macOS and iOS, as a library whose contracts are
proved by Verus.

The library never talks to the platform itself. It says what the platform is to be told and asked,
in which order, and what a web view remembers in between:

- `creation` makes a web view: a conversation of questions, answers and commands that ends with a
  web view or an error. `dialogue` says what the whole conversation comes to.
- `webview` is a web view that has been made: scripts, pages, printing, the inspector, bounds, and
  its end.
- `command` holds the vocabulary; `attributes`, `geometry`, `headers`, `print`, `url`, `window`,
  `registry`, `cookie` and `error` hold what it speaks of.
- `laws` states what holds across the making, the life and the end of a web view.

Numbers with a fraction are carried by their bits.

`app/` carries the conversations out on a live platform: `inner` leads them, `units` evaluates the
numbers, `host` says what a platform must be able to do, and `webkit` does it on macOS.
