# codex_strict_images

Prepares the images of a conversation history for the Responses API strict
mode, with every step specified and proved in Verus.

- `src/` is the verified library. The prompt image loader, which decodes and
  fits an image, is a closure the caller passes in; the contracts say what a
  pass does for every result the loader may return.
- `app/` binds the passes to the workspace's image loader and gives the errors
  their messages.
- `tests/` exercises the library on concrete histories.
