# eventkit_core

The decisions behind `eventkit`, a command line and tool server for macOS
Calendar events and Reminders, written and proved in Verus.

The library works on plain values. It never calls the event store itself: a
tool or a command is a chain of steps, each of which names one call on the
store, and the program in `app/` makes the call and hands the reply back.

| Where | What |
|---|---|
| `src/model.rs`, `src/request.rs`, `src/output.rs` | values of the store, requests, answers |
| `src/reminder.rs`, `src/event.rs`, `src/edits.rs` | tools that answer with one item, and the edits that follow a save |
| `src/batch.rs`, `src/listing.rs`, `src/calendars.rs`, `src/prompts.rs` | the other tools and the prompts |
| `src/cli.rs`, `src/cli/` | the commands |
| `src/clock.rs`, `src/dates.rs`, `src/recurrence.rs`, `src/words.rs`, `src/text.rs` | dates, recurrence rules, words, text |
| `app/` | arguments, JSON, the server loop and the binding to the event store |
| `tests/` | tests of the library on concrete values |

Dates, time zones and date formats come from `chrono`. What it is trusted to
do is written above each wrapper in `src/clock.rs`; the two conversions of the
standard library that are trusted stand at the end of `src/text.rs`.

Floating-point numbers pass through the library by their bit patterns, except
for the color of a calendar: the program computes how far it lies from each
color of the palette, and the library picks the nearest.
