# raytracer

A small ray tracer: it reads a scene file (camera, directional light,
spheres) and writes the rendered image as a PNG.

## Layout

- `src/` is the verified library (Verus):
  - `text.rs`: lines, comments, commas and whitespace tokens of scene files;
  - `number.rs`: which tokens are numbers (the grammar of `f64::from_str`);
  - `fields.rs`: field names and the directives that set them;
  - `plan.rs`: what a scene file means, as spec functions: the global
    fields, and the steps that building its scene takes (spheres in file
    order, camera, lighting), ending at the first error;
  - `scanner.rs`: the scanner, proved to compute that meaning, and the
    placing of validation errors at the lines that gave the fields;
  - `plan_laws.rs`: properties of the format (commas and spaces, comments,
    blank lines, duplicate fields, step order, error lines);
  - `validation.rs`: the rules for single scene values, decided on their
    IEEE 754 binary64 encodings;
  - `image.rs`: the RGB8 frame buffer;
  - `render.rs`: render configuration and the pixel traversal.
- `app/` is the program around it: `f64` vectors, scene objects, ray
  intersection and shading, the PNG writer and the command line. Everything
  there computes with floating-point values, which the library does not hold.
- `tests/` runs the library on concrete inputs.
