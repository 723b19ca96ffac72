# melo

A mellow terminal markdown viewer, with its core verified by Verus.

```sh
melo <file>
cat README.md | melo
```

## Layout

- `src/` is the verified library.
  - `markdown/` turns markdown into styled lines: `events` holds pulldown-cmark's
    events as plain values, `renderer` is the state machine that walks them
    (headings, lists, quotes, links, images, inline styles), `blocks` draws code
    blocks (highlighted with syntect) and tables, `images` decodes and scales
    images with the `image` crate and draws them as half blocks, `parser` builds a document with
    its title, and `properties` proves what holds of every rendering.
  - `ui/` computes what the screen shows: the scrolling `viewport`, and the
    status bar and popups in `layout`.
  - `input` maps key presses to actions, `app` is the viewer's state and how it
    reacts to keys, actions and events, `text` and `style` are the styled text
    model.
- `app/` is the program around it: command line, reading files and stdin, the
  terminal, drawing with ratatui, reading image files and computing their
  scale, file watching, and carrying out
  what the library asks for (opening a link, reading a linked file).
- `tests/` runs the library on concrete documents and keys.

## Keybindings

| Key | Action |
|-----|--------|
| `j` / `↓` | Scroll down |
| `k` / `↑` | Scroll up |
| `Ctrl-d` / `PageDown` | Half-page down |
| `Ctrl-u` / `PageUp` | Half-page up |
| `g` / `Home` | Jump to top |
| `G` / `End` | Jump to bottom |
| `Tab` / `Shift-Tab` | Next / previous heading |
| `t` | Table of contents |
| `o` | Open link picker |
| `Backspace` | Go back (after following a link) |
| `/` | Search |
| `n` / `N` | Next / previous match |
| `?` | Toggle help overlay |
| `q` / `Esc` | Quit |
