# wt_event_handler

A bot that watches War Thunder news sources and forwards new posts to
Discord webhooks.

- `src/` is the verified library (Verus): the cache of seen urls
  (`recent`), the webhook clients (`webhooks`), which clients a post goes to
  and the message text (`webhook_handler`), reading the newest forum thread
  off a page (`forum_news`), the start menu (`start_profile`) and the string
  helpers they share (`text`).
- `app/` is the program around it: terminal menu, files, logging, HTTP and
  Discord delivery, and the serde copies of the library's types.
- `tests/` exercises the library on concrete values.
