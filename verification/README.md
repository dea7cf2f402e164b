# measurement-service

A body-measurement HTTP service. `src/` is a library verified with Verus; `app/` is the
server around it (Axum, ONNX Runtime, floating-point geometry).

- `size_map`: size labels and the women's tops chart, in millimetres; `recommend_tops`
  picks the first size whose chest and waist ranges hold the measurement, else the size
  with the nearest chest middle.
- `photo`: decoding the uploaded photos with `image::load_from_memory`, front photo first.
- `segmentation`: the body-silhouette mask (an `image` grayscale buffer behind trusted
  wrappers), built from the segmentation model's per-pixel decisions at the photo's size,
  every sample 0 or 255, and the width of
  the body along one row.
- `pose`, `measure`: landmark numbering and the check that the key landmarks are visible.
- `service`: upload-field dispatch and which failed reads are fatal, request-error precedence and status codes, the
  demo-mode seed, model paths and the listening port.
