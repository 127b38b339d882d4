# baf

The decision logic of a Hypixel SkyBlock auction-house and bazaar flipping
bot, written in Verus with its behaviour stated as `requires` / `ensures`
contracts and proved.

## Layout

- `src/` — the verified library.
  - `text.rs`, `numeral.rs` — character-level string functions and the
    exact reading of decimal numerals, each with its specification.
  - `profit.rs` — the profit tracker (charts of realized AH and bazaar
    profit) and the parsers of Coflnet profit reports.
  - `parsers.rs` — parsers of chat messages and of the lore of sold auctions.
  - `auction/`, `bazaar/` — the decisions of each window flow: which window
    opened, what to click, when to give up, what to record. The flows are
    state machines: a function takes the window and the flow's state and
    returns the next state and the actions to perform.
  - `steps.rs`, `constants.rs`, `gui.rs` — the flows' step enums, constants
    and bot states.
- `tests/` — tests on concrete values, including the laws' examples.
- `app/` — the asynchronous window handlers around the library: they read
  the open window, ask the library what to do, and perform it through a
  `BotSession` trait that stands for the Minecraft connection.

The laws of the library (what holds over all inputs or across calls) are the
public `law_*` proof functions next to the functions they speak of.
