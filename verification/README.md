# css_animation

The CSS `animation` shorthand and its longhands (`animation-name`,
`-duration`, `-timing-function`, `-iteration-count`, `-direction`,
`-play-state`, `-delay`, `-fill-mode`), verified with Verus:

- `src/` is the verified library: the values and their parsers and
  serializers, and `AnimationHandler`, which merges the animation
  declarations of a rule into the shortest equivalent list.  Tokenizing
  goes through `cssparser`, and the value lists are `smallvec` lists.
- `tests/` runs the library on concrete inputs.
- `app/` writes the serialized pieces out as text (numbers are formatted
  there, from their binary32 values) and drives a handler over a list of
  declarations.
