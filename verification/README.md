# dungeon_maze

The rules of a small maze exploration game, verified with Verus.

`src/` holds the game's decisions as functions on plain values, each with a
contract, and the laws that tie them together:

- `layout` — where the cells of a maze stand inside a chunk;
- `maze` — maze cells, their walls, where each wall stands, and the layout
  of a whole maze in a chunk;
- `interaction` — which interactable is pending and when it is used;
- `menu` — opening the menu, switching tabs, render distance buttons,
  visibility on hover;
- `drag` — starting and ending a drag of inventory and equipment items;
- `items` — what using an item does;
- `movement` — which camera directions the movement keys add up;
- `args` — command-line arguments;
- `search` — the "first element that matches" search the rules share.

`app/` is the game engine side: it reads input and entities, calls the
library, and spawns, moves and draws things with floating-point transforms.
