# pixel_planets_rs

Pixel-art planets, stars, black holes and galaxies for the Bevy engine.

- `src/` is the verified library: the kinds of body (`BodyType`), the material
  plugins each body's build registers and how shared ones are registered only
  once (`bodies::materials`), the layers each body is drawn with
  (`bodies::layers`), the order in which the plugin builds the bodies, the
  sampling steps of generated palettes and the encoding of shader switches.
  Its laws (`law_*` proof functions) state that the plugin registers every
  material plugin exactly once, that every layer's material is registered by
  its body's build, that layer depths never collide, and that labels and
  shader paths are distinct.
- `app/` holds what needs the engine or floating point: the parameter
  structs with their defaults and random generation, the shader materials,
  the observers that spawn a body's layers, and the Bevy plugin.
- `tests/` runs the library on concrete values.
