# kbdp

A live keyboard display for Windows: a global low-level keyboard hook reports
every key press and release, and a window draws a standard US 104-key layout
with each key coloured by its state (never pressed, held, released).

- `src/` is the verified library:
  - `layout`: key states, the rule that maps a hook event to a key identifier,
    and the layout itself (sizes in quarters of a standard key), with proofs
    that the rows line up, that identifiers are unique and that every drawn
    key can be lit;
  - `hook`: which hook messages are key events and which keys the hook keeps
    from the system while the window is in front;
  - `keyboard_view`: the key states and how batches of events update them;
  - `theme`: the colours, as `0xRRGGBB`.
- `app/` is the program: the Windows hook thread and the gpui window.
