# bounce_up

The rules of *Bounce Up!*, a two-paddle ball game, as a verified library.

`src/` holds what decides a frame: the screens and their transitions
(`state`, `menu`), the physics layers that decide which bodies touch
(`layers`), a match's ending and the game modes (`game_over`, `modes`), the
player's reserve of balls and the score (`base`), the practice's slit wall
(`slits`), the cooldowns and feedback of collisions (`effects`), the serve of a
new ball (`ball`) and the menu's changing texts (`text`). The engine's timers
and the random generator are called through a few trusted wrappers; each timer
is carried together with a model of what it holds (duration, elapsed time,
finish count), so the contracts say exactly in which frame a wait ends.

`app/` is the game around it: the engine's systems, the user interface, audio,
and the floating-point physics and steering, which the library cannot hold.
