# pulse

A small CPU monitor for Linux: a window with a badge (vendor, model and
maximum frequency of the processor) and, for each processor, an online
toggle and a usage bar refreshed every second. A helper run through
`pkexec` writes the processors' `online` files.

- `src/` is the verified library (Verus): the models and parsers of
  `/proc/cpuinfo`, `/proc/stat` and `cpuinfo_max_freq`, the sysfs paths,
  the processor count, the per-processor records and their usage in ticks,
  the badge text, and the helper's decisions.
- `app/` is the program around it: file reading, the GTK window and badge,
  the floating-point usage fraction and frequency text, and the helper's
  process and JSON messages.
- `tests/` exercises the library on concrete inputs.
