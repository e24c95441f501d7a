# plotr

A live plotting window (gtk4) around a verified library.

- `src/` is the library, with the proofs of its contracts:
  - `text`: decimal places and digits of a value's decimal text, used to add
    and multiply tick values without drift;
  - `layout`: the three-by-three grid of the window (plot area in the middle,
    an axis strip on each side) and the size of each strip;
  - `axis`: what each axis strip draws (title, tick marks, their places and
    labels, minor ticks);
  - `trace`: the pen steps that redraw the curves and the zoom selection;
  - `animation`: the run switch and frame counter of the live plot.
- `app/` is the program: widgets, cairo drawing, and the floating-point
  geometry (tick values, screen/graph coordinates, zoom).
- `tests/` runs the library on concrete values.
