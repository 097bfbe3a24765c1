# breakout

The rules of a small breakout game, verified with Verus: a platform steered
with the arrow keys, a ball, five rows of bricks with up to five coins hidden
among them.  The ball erases the bricks it hits; collecting five coins wins
the game, letting the ball fall below the window loses it.

- `src/units.rs`: the unit of length (an eighth of a pixel), the window and
  grid dimensions, points and regions.
- `src/sprites.rs`: sprites and what they show, the random layout of bricks
  and coins, the platform controls, and the shader-facing choices.
- `src/play.rs`: the state of a game and the rules of one frame, with the
  properties every frame keeps.
- `src/game.rs`: a simpler paddle-and-ball game state.
- `app/`: the window, the GPU pipeline and the event loop that drive the
  library; it reads `content/shader.wgsl` and `content/sprites.png` at start-up.
