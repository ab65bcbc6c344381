# tacky_borders

Borders around the windows of a desktop: each window gets a border window of its own that follows
it, keeps next to it in the order of windows, is drawn by one of two renderers, and goes when its
window goes.

The library decides; it makes no call of the operating system. A border hands out one request at a
time and goes on when it is given the reply, so the whole of what it does on a message can be
stated, and is proved: `behavior` and `dispatch` say what a border does as a conversation with the
desktop, `drawing`, `messages` and `resume` do it, and `conduct` and `laws` state what holds of
every conversation, whatever the desktop replies and whatever happens to the border in between.

| module           | what it is about                                                        |
|------------------|-------------------------------------------------------------------------|
| `geometry`       | rectangles and sizes                                                    |
| `headroom`       | the 20% of spare room of a surface, exactly as in single precision      |
| `protocol`       | requests, replies and messages                                          |
| `window_border`  | the state of a border, and the tie between a border and its window      |
| `behavior`       | what a border's place, color, renderer and scale ask of the desktop     |
| `dispatch`       | what a border does when it is set up and on each message                |
| `call`           | work that waits for a reply                                             |
| `drawing`        | the executable side of `behavior`                                       |
| `messages`       | the executable side of `dispatch`                                       |
| `resume`         | beginning and going on with work                                        |
| `conduct`        | what every conversation keeps to, piece by piece                        |
| `laws`           | what holds of borders as a whole                                        |
| `render_backend` | the two renderers, as jobs made of calls into the graphics system       |
| `border_manager` | making borders on a thread of their own                                 |
| `anim_timer`     | the ticker that drives all animations                                   |
| `title`          | the title of a border window                                            |

`app` carries all of this out: the threads, the locks and, on Windows, the calls themselves.
