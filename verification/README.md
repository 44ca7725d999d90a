# streamer_notifier

A Discord bot that announces in a guild's channel when a followed Twitch
streamer goes live, split into a verified library and a thin program.

* `src/` — the library, verified with Verus:
  * `names` — case-insensitive streamer names (through `str::to_lowercase`);
  * `config` — per-guild configuration and the cache of all guilds, with the
    announcement targets of a live streamer and the streamers to subscribe at
    start-up;
  * `commands` — what the slash commands `/streamer add|remove|list` and
    `/channel set|reset` do to the cache and answer;
  * `text` — the texts the bot sends;
  * `listener` — the EventSub subscription table: one subscription per
    streamer, counted by the guilds that follow it;
  * `websocket` — the EventSub websocket session: what each frame means
    (messages are read with `twitch_api`, reconnect URLs with `url`);
  * `laws` — properties that span several operations.
* `app/` — the program: Discord (poise/serenity), the Twitch HTTP API and
  websocket, the channels between tasks, and `store.json`.
* `tests/` — tests of the library on concrete values.
