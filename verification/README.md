# servo_v8

The native side of a bridge between a DOM and the V8 engine, verified with
Verus.

V8 handle types stay behind a C ABI. What crosses it is plain data, and this
library says what that data means: which arguments a callback accepts, what it
hands to a DOM host and how it spells the host's answer, how a transferred
string or list is read back, and how a reply of the engine becomes an outcome or
an error.

- `src/` is the library. Pointers appear in it as what they stand for: an
  absent reference for a null pointer, an address of zero for a null address, a
  box for an allocation whose ownership moves. The engine's functions are passed
  in as closures, so every contract says what the engine is asked and how its
  answer is read. A host says which calls it expects, and a callback enters it
  only with the one call that well-formed arguments spell.
- `app/` is the C ABI itself: layouts, callback tables, the engine's entry
  points, and a runtime that deletes the native one when it is dropped.
- `tests/` run the library against probe hosts and a scripted engine.

Three facts about the standard library are trusted: what `String::into_bytes`
and `std::str::from_utf8` do, and that `String::from_utf8_lossy` is a function
of its bytes that agrees with decoding on valid UTF-8. All are in `src/text.rs`.
