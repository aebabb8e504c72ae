# img_shrink

Image recompression with external encoders (`cjxl`, `cjpg`, `cwebp`,
`heif-enc`), quality chosen either directly or by an adaptive search on the
DSSIM distance (`dssim`), with optional resize, crop and watermark.

- `src/` is the verified library. It decides what to run and what a
  result means: format names, command lines of every external program,
  how input bytes become a PNG, resize and watermark geometry, the quality
  mode of a set of options, the adaptive quality sweep, the order of an
  encode's steps and which of its files are removed, where an output file
  goes, and the command-line tool's arguments and messages. Every public function carries a contract
  that Verus proves; the laws that relate several functions are public
  proof functions.
- `app/` runs the programs, moves files, compares floating-point
  distances and drives the command-line tool.
- `tests/` exercises the library on concrete values.
