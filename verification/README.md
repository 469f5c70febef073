# The Channel 0 News

A party game over WebSockets. A host enters the players' names and opens
submissions. Each player writes a news script for the next player in a ring, from
the prompts of a prompt set and with a sign-off. Once everyone has submitted, the
host starts the performance: a slide carousel from which each player's partner
reads the script aloud. Afterwards the host archives the round.

The rules of the game and of the server around it are a library verified with
Verus. The server itself, with its sockets, tasks and database, is ordinary Rust
around it.

## Layout

    src/            the verified library
      state.rs      the game state and its transitions
      game.rs       the same game as mathematics: what the contracts speak of
      protocol.rs   client intents and server events
      room.rs       the reducer: what one intent does to a room, and who hears of it
      ws.rs         the session of one connection, and the outbound pump
      registry.rs   join codes, host tokens, and the live rooms by code
      routes.rs     the decisions of the REST surface
      catalog.rs    the prompt catalog
      db.rs         the statements behind the durable effects
      error.rs      application errors
      text.rs       decimal and hexadecimal notation
      laws/         what holds of every room, session, registry and table
    tests/          tests of the library
    app/            the server: Axum, Tokio, SQLx, and the JSON wire format

## What is proved

Every executable function states in its contract what it returns or changes, over
the views of its arguments: exactly, or, where something is drawn at random, for
every draw. The reducer `room::apply` computes
`room::react`; the session `ws::Session::step` computes `SessionView::step`; each
transition of `GameState` carries out the transition of the same name of
`GameView`. From those, `laws/` proves among others:

* every room that can be reached is sound: names are distinct, the ring pairs
  everyone once, the answers fit the prompts, the carousel stands on the deck;
* a refusal goes to its sender alone and changes nothing;
* nobody acts as the host without the room's token, and the identity of a
  connection never changes;
* what is broadcast reveals no partner, no assignment and no answer before the
  performance;
* storage keeps exactly the entries with which a performance started.

Two functions are trusted, both in `registry.rs`: they draw random numbers with
the `rand` crate.

## The server

    DATABASE_URL         Postgres; without it the game runs fully in memory
    CHANNEL_ZERO_ADDR    the address to listen on, 0.0.0.0:3471 by default
    CHANNEL_ZERO_STATIC  the directory of the static client, `static` by default
