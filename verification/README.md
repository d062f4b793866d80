# img_annotator

A library for annotating the images of a folder one by one: a window walks
through a welcome page, the images and an end page; on the image page each
image can be marked correct or incorrect, or have its mark removed, and the
marks are kept, per folder, in a store that can be exported as JSON.

- `src/` is the verified library (Verus): the pages, the messages and how they
  change the state (`render_image`, `img_visualizer`), the annotation store,
  and the laws that hold across operations (`laws`).
- `app/` is the iced window around it: it lists the directory, opens the
  folder dialog, writes `output.json` and draws the pages.
- `tests/` runs the library on concrete values.
