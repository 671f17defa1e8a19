# channel_nest

A verified library behind a desktop client that keeps a user's accounts on
creator platforms (Xiaohongshu, WeChat Channels, Douyin, Bilibili, Kuaishou):
signing in through a browser window, checking saved sessions, and reading
each account's profile, data board and works lists from the platforms' APIs.

## Layout

- `src/` is the library, verified with Verus. Every platform reply is read
  through a JSON document model (`json.rs`) whose decisions are stated in
  contracts: profile readers, boards and works pages (`platforms/`,
  `works.rs`), the account store and its per-user isolation (`storage.rs`,
  `accounts.rs`, `auth_task.rs`), session checks and refreshes
  (`refresh.rs`), cache freshness (`sync.rs`), cookie and browser-protocol
  handling (`browser.rs`), and properties that span several operations
  (`laws.rs`). Calls into `url`, `form_urlencoded`, `chrono` and `base64`
  stand behind small trusted wrappers whose contracts name what they return.
- `tests/` runs the library on concrete replies.
- `app/` is the client shell, unverified: the command loop, HTTP and
  browser I/O, the SQLite store, serde models, and the figures the platforms
  give as floating-point numbers.
