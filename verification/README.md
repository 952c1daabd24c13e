# img2avif

A command-line tool that converts images (JPEG, PNG, BMP, GIF, TIFF, WebP,
ICO, camera raw files) to AVIF, with its decision logic verified in Verus.

- `src/` is the verified library:
  - `config` — the settings of a run, input and output paths, and the
    validation of every parameter, with its messages in order;
  - `float_bits` — the command line's numbers held as IEEE-754 bit patterns,
    compared as the values they encode;
  - `converter` — decoding an input's bytes and preparing its encoding (the
    image turned upright, encoder settings, the EXIF chunk to keep), and the
    decision to discard a larger result;
  - `picture` — the image library's decoded images as the library sees them:
    dimensions, pixel format, pixels, EXIF data;
  - `processor` — file recognition, run planning, what happens to originals,
    and the tally of a directory run;
  - `raw_decoder` — raw-file recognition, parsing, orientation, the sensor
    data that demosaicing works on, and an exact integer
    demosaicing of Bayer sensor data;
  - `exif` — the turning and mirroring that shows an image upright, proved
    against the EXIF meaning of each orientation value;
  - `paths`, `text`, `error` — path and string helpers and the error type.
- `app/` is the program around it: argument parsing, reading and writing
  files, AVIF encoding (whose settings are floating-point values) and the
  floating-point tone curve of raw images.
- `tests/` runs the library on concrete values.
