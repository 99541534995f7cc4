# icy_ui

Menus, context menus and virtual scrolling for a graphical toolkit, verified with Verus.

- `src/` is the verified library. It decides what widgets do and what is shown; effects are
  returned as plain values, in order.
  - `scalar`, `geometry`, `event`, `time`, `text`, `channel`: what everything is measured and
    written in.
  - `menu`: the description of a menu, its overlay with keyboard, pointer and accessibility, and
    context menus.
  - `mac_menu`: the menu bar and the context menus of macOS, as plans of native items.
  - `url_handler`: URLs and documents that Apple Events carry.
  - `scrolling`: scrollables that only build the content that is visible.
- `app/` is the front end around it: floating-point numbers, the order in which the steps of an
  event are taken, and the calls into AppKit.
- `tests/` runs the library on concrete values.

Lengths are generic over `scalar::Scalar`. Fixed-point pixels implement it in the library; the
front end adds floating-point numbers. What the operations mean is `scalar::Arithmetic`, which
`scalar::exact` also gives to real numbers, for what holds where nothing is rounded. `law_` names
the proof functions that state what holds of the library as a whole.
