# beep

Beep is a Discord bot: it rolls dice, keeps a custom command prefix per
guild, gives new members a default role, kicks members and opens support
tickets in their own channels.

`src/` is the verified library, checked by Verus:

- `text` — decimal numbers as text (rendering, and the grammar of unsigned
  integers) and Discord mentions;
- `draws` — the record of random draws that the dice contracts speak of;
- `commands::dice` — dice notation (`3d6`), throwing the dice and the reply;
- `commands::config` — the prefix, default-role and moderation-role commands;
- `commands::moderation` — the `kick` command;
- `commands::hooks` — replies to refused commands, the report of a failed one;
- `commands::ticket` — ticket creation as a sequence of steps;
- `util::managers` — the guilds' prefixes (a `DashMap`), ids read from the store;
- `util::database_store` — decoding what the guild-configuration store finds;
- `util::embed_store`, `util::handler`, `util::config`, `util::permission`.

`app/` is the bot itself: Discord (serenity), MongoDB, the configuration file
and the event loop. It performs the I/O and hands every decision to the
library.
