# pocket_tts_essential

Korean/English text-to-speech front end. `src/` is the verified library: the
decisions around synthesis, proved with Verus.

- `voice`: which voice a specifier names (stock English voice, `.safetensors`
  embedding, `.wav` recording) and where its data comes from.
- `bundle`: whether a local model folder holds a complete bundle.
- `model`: which configuration the Korean and English models load.
- `cli`: per-language defaults and the choice of model source.
- `flow_lm`: per-frame noise seeds and the BOS-frame weight check.
- `speed`: the integer skeleton of WSOLA speed change (windows, frame bounds).
- `config`: the integer and text configuration types.
- `path`, `text`: Unix path and character helpers with `std`'s semantics.

`app/` holds the command-line program and everything that touches files, the
network, tensors or floating point: it probes the disk, downloads, runs the
model and hands what it found to the library, which decides. The speed
change and noise sampling are floating point throughout and stay in `app/`
apart from their integer skeleton.
