# engine

A small game engine core with its logic verified by Verus.

- `src/` is the verified library:
  - `modules/` the entity-component store (`ecs.rs`), the world handle,
    and the laws the store keeps (`ecs_laws.rs`): what a read gives back
    after a write, that other entities are untouched, that loading a
    store's entities in store order gives the same store back, and that
    loading them in any other order gives every entity the same components.
  - `components/` the plain component data, the component type names and
    which shape-pair test decides a collision.
  - `event_system/` event dispatch, the shared event system, and the
    movement keys and the direction they ask for. That an event goes to the
    subscribers of its type in subscription order is proved of
    `listeners_for`, the order `notify` walks; the listener calls themselves
    return nothing a contract could speak of.
  - `managers/` the asset manager and the object cache: the glTF data of
    each asset is parsed here, and the parsed document is handed to a loader
    the application provides for the GPU upload.
  - `gui/` the desktop clock bridge.
- `tests/` runs the library on concrete values.
- `app/` is the desktop program around it: the window and GL context,
  glTF loading and shaders, the float components (transforms, cameras,
  animation, collision geometry), JSON of the store, and the GUI. It reads
  each asset's glTF, binary buffer and PNG texture from an `assets/`
  directory and decodes the PNG with the `image` crate (the version the
  glTF crate already uses), since the glTF crate exposes no decoder for a
  texture shipped beside the document. `web-time` is declared for the
  browser build's clock, which this crate does not carry.
