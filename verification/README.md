# yomiage

The decision logic of a Discord text-to-speech bot, verified with Verus.

- `src/` — the library. Its functions carry contracts that Verus proves,
  except a few trusted wrappers around outside code, whose contracts are
  stated but not proved: `String::push`, `String::from_utf8_lossy`,
  `regex_syntax::is_word_character`, `regex::Regex` matching `\d`, and the
  `dashmap::DashMap` calls of the speaking tracker:
  - `application/` — the reading-text rules (URLs, code blocks, custom emoji,
    mentions, Unicode emoji, `;` comments) and their pipeline, the message
    filter chain, the engine registry and the use cases' decisions;
  - `domain/` — value objects and the `TextRule` / `MessageFilter` traits;
  - `config.rs` — the configuration read from the environment;
  - `infrastructure/` — what the bot answers on Discord (commands, the voice
    selection pager, event decisions), the voice settings kept in the JSON
    settings file, and what the speech engines' answers mean;
  - `text.rs` — character sequences, Unicode white space, decimal numbers.
- `app/` — the bot itself (serenity, songbird, reqwest, tokio): it reads,
  sends and awaits, and asks the library what to do.
- `tests/` — tests of the library.
