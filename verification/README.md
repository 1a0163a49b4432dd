# Voicestudio

Type text, choose a voice, hear it in that voice. Everything is generated on
the machine it runs on.

`src/` is what the application knows and decides, written in Verus: every
function states what it does in a contract, and the contracts are proved.

- **Lifecycles** (`job`, `execution`, `lifecycle`, `voice`): work that has to be
  accounted for after an interruption, and the laws that keep an outcome an
  outcome whatever a late message says.
- **The studio** (`studio` and the modules of its parts: `clips`, `generation`,
  `queue`, `voices`, `models`, `enrolment`, `listening`, `setup`, `storage`):
  the state of the running application, and each thing that can happen to it as
  a step from one state to the next.
- **What the window says** (`workspace`, `composer`, `settings`, `switcher`,
  `inspector`, `about`): rows, titles, hints and buttons, as plain values that
  follow from the state.
- **Ground** (`engine`, `recorder`, `player`, `microphone`, `phrase`, `icon`,
  `text`, `path`, `single`): the values the parts are made of. Seconds and
  levels cross as the bits of a single-precision number; only their order and
  how they are printed is decided here.

Two functions of the standard library are trusted, both in `text`: the upper
case of a character and the lower case of a text.

`app/` is the window, the devices, the engine and the disk: it asks the library,
performs what it answers, and hands back what happened. Arithmetic on
floating-point numbers and the lookup of phrases stand there too.

`tests/` runs the library on concrete values.
