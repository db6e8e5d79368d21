# onnx_session

Verified session setup for ONNX Runtime models: which execution providers a
session gets for each accelerator preference, how a model's role is inferred
from its file name, where the OpenVINO provider plugin is looked for and which
discovered device it is given, which model file a quantization level loads,
and how custom model metadata is read.

- `src/` is the library, verified with Verus. `accel`, `role`, `providers`,
  `session` hold the planning rules; `plugin` the OpenVINO plugin logic;
  `paths` the model-file rules; `metadata` metadata reading; `text` the
  string helpers they share; `ortcalls` the calls into the `ort` crate.
- `app/` reads the process's settings, environment and file system, keeps the
  plugin registry for the life of the process, logs, and parses floats.
- `tests/` exercises the library on concrete inputs.
