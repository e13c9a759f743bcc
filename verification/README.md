# fluxel_gl

The GL-family backend of the Fluxel render hardware interface: desktop OpenGL
from 4.0, OpenGL ES from 3.0 and WebGL2.

The library decides what one real context is asked to do. It asks through
small traits and keeps a log of what it asked, and its contracts say what its
operations do for every answer that can come back. What an implementor of such a
trait leaves out is refused, and the trait says with which error.

- `src/api` holds the plain values: formats, descriptors, errors, identities.
- `src/translate*.rs` turns portable descriptions into those of GL, or refuses.
- `src/state` remembers what the driver was told, so that nothing is told twice.
- `src/platform` is a device around one adopted context.
- `src/native` is the native side: discovery, lowering, execution, EGL and WGL.
- `app` makes the calls: `glow`, EGL, WGL, window handles and worker threads.
