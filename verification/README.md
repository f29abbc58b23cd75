# poker_drill_gen

Poker training scenarios — randomised by default, or drawn from `rand`'s
seeded `StdRng` when a seed is given — with their decision logic verified by
Verus.  Ask for a topic (or a street)
and get a dealt table, a multiple-choice question, and an explanation for
every answer option.

```rust
use poker_drill_gen::{generate_training, DifficultyLevel, Street, TextStyle, TrainingRequest, TrainingTopic};

let s = generate_training(TrainingRequest::new(TrainingTopic::BluffSpot));
let s = generate_training(TrainingRequest::new(Street::Flop));
let s = generate_training(TrainingRequest {
    topic: TrainingTopic::PotOddsAndEquity.into(),
    difficulty: DifficultyLevel::Advanced,
    rng_seed: Some(42),
    text_style: TextStyle::Technical,
});
```

## Layout

- `src/` — the verified library.
  - `models` — cards, positions, topics, requests and scenarios.
  - `deck` — the 52-card deck: its order is proved to be the Fisher–Yates
    shuffle of the ordered deck by the 51 drawn swap partners.
  - `evaluator` — board texture, draws, preflop hand categories.
  - `topics/{preflop,flop,turn,river}` — the sixteen topic generators.  Each
    draws its random values into a `*Draw` struct and builds the scenario
    from it; the contract states the scenario's *decision* (topic, branch
    key, table, answer labels, correct answer) as a function of the draw,
    and its question and explanations as functions of the draw and the
    text style.
  - `generator` — `generate_training`: RNG, topic resolution, scenario id,
    dispatch; and the laws every generated scenario obeys.
  - `nt_adapter`, `drill` — what the table client is shown, answer grading,
    and the bounded cache of served scenarios.
  - `rng`, `text`, `helpers` — the random source, verified text formatting,
    shared builders.
  - `binary32` — single-precision rounding on exact integer ratios, for the
    few numbers (bet fractions, SPR, percentages, paid places) that are
    defined by what a 32-bit float holds.
- `app/` — serde twins with `Display`, floating-point equity helpers, the
  client's JSON message and the HTTP drill service.
- `tests/` — scenario, deck/evaluator and law tests.

Bet sizes and percentages are computed in integer arithmetic; where a value
is defined by single-precision arithmetic, each rounding step of that
arithmetic is computed exactly and stated.

What the proofs cover and what they do not: every scenario is proved to be
exactly what its topic's builder makes of its draw, id and text style.  Which
values are drawn rests on `rand`; that one seed gives the same draws again is
`rand`'s behaviour (for one `rand` version and word size), checked by the
tests and not proved.
