# webhook

Models of Discord webhook messages, verified with Verus.

- `src/models.rs` holds the message parts (`Message`, `Embed` and its parts, action rows and
  buttons, allowed mentions, `Webhook`), their builders, the `MessageContext` that the checks
  share, and the `DiscordApiCompatible` checks against Discord's limits.
- `src/limits.rs` names those limits; `src/interval.rs` holds `Interval` and the check that
  reports a value outside one.
- `src/rules.rs` states, over the views of the parts, what each check returns and what it
  leaves in the context; `src/laws.rs` proves that a message passes the check exactly when it
  keeps all the limits, and the facts about registration that the checks rest on.
- `app/` holds the serde forms of the types, used to send messages and read webhooks as JSON.
