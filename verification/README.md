# trait_classes

A small class hierarchy of animals, verified with Verus.

- `src/platypus.rs`: the traits `Animal`, `EggLayer`, `Mammal` and `Platypus`,
  the `NorthernPlatypus` that implements them all, and `Teller`, the function
  that `BecomeOlder` hands back and that reads the animal's age when called.
- `src/aging.rs`: what growing older does to an age written in decimal digits.
- `src/byte.rs`: the `uint8` number type.
- `src/program.rs`: the program itself, `_default::Main`, which gives back the
  text it writes.
- `app/main.rs`: prints that text, and gives `uint8` the runtime's printing.
