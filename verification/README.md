# wot_test

A tester for Web of Things things: lamps, on-off switches and light emitters.

- `src/` is the verified library. It holds Thing Descriptions and how they are
  compared (`td`, `json`, `number`), the lamp that is expected (`lamp`) and the
  tests themselves (`tester`) as state machines: each says what to send next and
  what to make of the answer. What is believed of other crates stands in
  `trusted.rs`.
- `app/` is the program around it: arguments, HTTP requests, server-sent events
  and timers.
- `tests/` runs the library on concrete values.

What holds of the library as a whole is stated by public proof functions, most of
them in modules called `laws`.
